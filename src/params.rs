//! A minimal builder of request addresses.
use vstd::prelude::*;

use crate::client::{address_text, pairs_view, path_segments, render_address, solr_segment, PairView};
use crate::wire::texts_of;

verus! {

/// The parts of a request address.
pub struct ParamsView {
    pub base: Seq<char>,
    pub collection: Seq<char>,
    pub handler: Seq<char>,
    pub params: Seq<PairView>,
}

/// A builder of the address of one request.
pub struct Params {
    base: String,
    collection: String,
    request_handler: String,
    params: Vec<(String, String)>,
}

impl View for Params {
    type V = ParamsView;

    closed spec fn view(&self) -> ParamsView {
        ParamsView {
            base: self.base@,
            collection: self.collection@,
            handler: self.request_handler@,
            params: pairs_view(self.params@),
        }
    }
}

impl Params {
    /// A builder for `collection` on the server at `base_url`.
    pub fn new(base_url: &str, collection: &str) -> (r: Self)
        ensures
            r@ == (ParamsView {
                base: base_url@,
                collection: collection@,
                handler: Seq::empty(),
                params: Seq::empty(),
            }),
    {
        let r = Params {
            base: String::from_str(base_url),
            collection: String::from_str(collection),
            request_handler: String::new(),
            params: Vec::new(),
        };
        proof { assert(pairs_view(r.params@) =~= Seq::<PairView>::empty()); }
        r
    }

    /// Appends a query parameter.
    pub fn add_query_param(&mut self, key: &str, value: &str) -> (r: &mut Self)
        ensures
            r@ == (ParamsView { params: old(self)@.params.push((key@, value@)), ..old(self)@ }),
            *final(self) == *final(r),
    {
        self.params.push((String::from_str(key), String::from_str(value)));
        proof { assert(pairs_view(self.params@) =~= pairs_view(old(self).params@).push((key@, value@))); }
        self
    }

    /// Sets the request handler.
    pub fn request_handler(&mut self, handler: &str) -> (r: &mut Self)
        ensures
            r@ == (ParamsView { handler: handler@, ..old(self)@ }),
            *final(self) == *final(r),
    {
        self.request_handler = String::from_str(handler);
        self
    }

    /// Shorthand for `commit=true`.
    pub fn auto_commit(&mut self) -> (r: &mut Self)
        ensures
            r@ == (ParamsView {
                params: old(self)@.params.push((seq!['c', 'o', 'm', 'm', 'i', 't'], seq!['t', 'r', 'u', 'e'])),
                ..old(self)@
            }),
            *final(self) == *final(r),
    {
        proof {
            reveal_strlit("commit");
            reveal_strlit("true");
            assert("commit"@ =~= seq!['c', 'o', 'm', 'm', 'i', 't']);
            assert("true"@ =~= seq!['t', 'r', 'u', 'e']);
        }
        self.add_query_param("commit", "true")
    }

    /// Shorthand for the `query` parameter.
    pub fn query(&mut self, query: &str) -> (r: &mut Self)
        ensures
            r@ == (ParamsView {
                params: old(self)@.params.push((seq!['q', 'u', 'e', 'r', 'y'], query@)),
                ..old(self)@
            }),
            *final(self) == *final(r),
    {
        proof {
            reveal_strlit("query");
            assert("query"@ =~= seq!['q', 'u', 'e', 'r', 'y']);
        }
        self.add_query_param("query", query)
    }

    /// The address `<base>/solr/<collection>/<handler>?<params>`.
    pub fn get_url(&mut self) -> (r: String)
        ensures
            *final(self) == *old(self),
            r@ == address_text(old(self)@.base, path_segments(old(self)@.collection, old(self)@.handler), old(self)@.params),
    {
        let mut segments: Vec<String> = Vec::new();
        proof { reveal_strlit("solr"); assert("solr"@ =~= solr_segment()); }
        segments.push(String::from_str("solr"));
        segments.push(self.collection.clone());
        segments.push(self.request_handler.clone());
        proof { assert(texts_of(segments@) =~= path_segments(self@.collection, self@.handler)); }
        render_address(&self.base, &segments, &self.params)
    }
}

} // verus!
