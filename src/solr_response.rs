//! The parts of a response that do not depend on JSON values.
use vstd::prelude::*;

verus! {

/// The response part of the server's reply: the matching documents.
#[allow(non_snake_case)]
#[derive(Clone, Debug)]
pub struct Response<T> {
    pub numFound: u32,
    pub start: u32,
    pub numFoundExact: bool,
    pub docs: Vec<T>,
}

/// The value of an absent response part.
pub fn empty_response<T>() -> (r: Option<Response<T>>)
    ensures
        r is None,
{
    None
}

} // verus!
