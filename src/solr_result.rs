//! The successful reply of the JSON response writer.
use vstd::prelude::*;

verus! {

/// The matching documents of a reply.
#[allow(non_snake_case)]
#[derive(Clone, Debug)]
pub struct SolrResult<T> {
    pub numFound: u32,
    pub start: u32,
    pub numFoundExact: bool,
    pub docs: Vec<T>,
}

/// The reply, with its response part where there is one.
#[derive(Clone, Debug)]
pub struct Response<T> {
    pub response: Option<SolrResult<T>>,
}

/// The value of an absent response part.
pub fn empty_result<T>() -> (r: Option<SolrResult<T>>)
    ensures
        r is None,
{
    None
}

} // verus!
