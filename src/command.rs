//! A builder of request addresses whose path grows segment by segment.
use vstd::prelude::*;

use crate::client::{
    address_text, body_view, error_of_status, pairs_view, render_address, solr_segment, status_error, unreadable_body,
    HttpReply, PairView,
};
use crate::error::{ErrorView, RSolrError};
use crate::wire::{json_at, json_lookup, texts_of, FoundView, JsonFound};

verus! {

/// The JSON pointer of the matching documents.
pub open spec fn docs_pointer() -> Seq<char> {
    seq!['/', 'r', 'e', 's', 'p', 'o', 'n', 's', 'e', '/', 'd', 'o', 'c', 's']
}

/// The view of an optional found value.
pub open spec fn found_view(f: Option<JsonFound>) -> Option<FoundView> {
    match f {
        Some(v) => Some(v@),
        None => None,
    }
}

/// What a command's exchange yields for a reply: the documents of a JSON
/// reply with status 200, or the error that the status and body give.
pub open spec fn command_outcome(outcome: Result<HttpReply, String>, r: Result<Option<JsonFound>, RSolrError>) -> bool {
    match outcome {
        Err(msg) => r matches Err(e) && e@ == (ErrorView::Network { source: msg@ }),
        Ok(reply) => if reply.status == 200 {
            match body_view(reply.body) {
                Some(b) => match json_at(b, docs_pointer()) {
                    Some(found) => r matches Ok(f) && found_view(f) == found,
                    None => r matches Err(e) && e@ == (ErrorView::Other { status: 200, body_text: b }),
                },
                None => r matches Err(e) && e@ == (ErrorView::Other { status: 200, body_text: unreadable_body() }),
            }
        } else if reply.status == 404 {
            r matches Err(e) && e@ == ErrorView::NotFound
        } else {
            r matches Err(e) && e@ == status_error(reply.status, body_view(reply.body))
        },
    }
}

/// The parts of a command's address.
pub struct CommandView {
    pub base: Seq<char>,
    pub segments: Seq<Seq<char>>,
    pub params: Seq<PairView>,
}

/// A request to a collection: `solr/<collection>` and the pushed handler segments.
pub struct Command {
    base: String,
    segments: Vec<String>,
    params: Vec<(String, String)>,
}

impl View for Command {
    type V = CommandView;

    closed spec fn view(&self) -> CommandView {
        CommandView { base: self.base@, segments: texts_of(self.segments@), params: pairs_view(self.params@) }
    }
}

impl Command {
    /// A command on `collection` at `base_url`: the path starts `/solr/<collection>`.
    pub fn new(base_url: &str, collection: &str) -> (r: Self)
        ensures
            r@ == (CommandView {
                base: base_url@,
                segments: seq![solr_segment(), collection@],
                params: Seq::empty(),
            }),
    {
        let mut segments: Vec<String> = Vec::new();
        proof { reveal_strlit("solr"); assert("solr"@ =~= solr_segment()); }
        segments.push(String::from_str("solr"));
        segments.push(String::from_str(collection));
        let r = Command { base: String::from_str(base_url), segments, params: Vec::new() };
        proof {
            assert(texts_of(r.segments@) =~= seq![solr_segment(), collection@]);
            assert(pairs_view(r.params@) =~= Seq::<PairView>::empty());
        }
        r
    }

    /// Appends a query parameter.
    pub fn add_query_param(&mut self, key: &str, value: &str) -> (r: &mut Self)
        ensures
            r@ == (CommandView { params: old(self)@.params.push((key@, value@)), ..old(self)@ }),
            *final(self) == *final(r),
    {
        self.params.push((String::from_str(key), String::from_str(value)));
        proof { assert(pairs_view(self.params@) =~= pairs_view(old(self).params@).push((key@, value@))); }
        self
    }

    /// Appends the handler as a path segment.
    pub fn request_handler(&mut self, handler: &str) -> (r: &mut Self)
        ensures
            r@ == (CommandView { segments: old(self)@.segments.push(handler@), ..old(self)@ }),
            *final(self) == *final(r),
    {
        self.segments.push(String::from_str(handler));
        proof { assert(texts_of(self.segments@) =~= texts_of(old(self).segments@).push(handler@)); }
        self
    }

    /// Shorthand for `commit=true`.
    pub fn auto_commit(&mut self) -> (r: &mut Self)
        ensures
            r@ == (CommandView {
                params: old(self)@.params.push((seq!['c', 'o', 'm', 'm', 'i', 't'], seq!['t', 'r', 'u', 'e'])),
                ..old(self)@
            }),
            *final(self) == *final(r),
    {
        proof {
            reveal_strlit("commit");
            reveal_strlit("true");
            assert("commit"@ =~= seq!['c', 'o', 'm', 'm', 'i', 't']);
            assert("true"@ =~= seq!['t', 'r', 'u', 'e']);
        }
        self.add_query_param("commit", "true")
    }

    /// Shorthand for the `q` parameter.
    pub fn query(&mut self, query: &str) -> (r: &mut Self)
        ensures
            r@ == (CommandView { params: old(self)@.params.push((seq!['q'], query@)), ..old(self)@ }),
            *final(self) == *final(r),
    {
        proof { reveal_strlit("q"); assert("q"@ =~= seq!['q']); }
        self.add_query_param("q", query)
    }

    /// Takes in what the transport brought back for the command: the value
    /// at `response.docs` of a successful reply (`None` where there is none).
    pub fn handle_response(&self, outcome: Result<HttpReply, String>) -> (r: Result<Option<JsonFound>, RSolrError>)
        ensures
            command_outcome(outcome, r),
    {
        let reply = match outcome {
            Err(msg) => {
                return Err(RSolrError::Network { source: msg });
            },
            Ok(reply) => reply,
        };
        proof { reveal_strlit("(no UTF-8 body)"); assert("(no UTF-8 body)"@ =~= unreadable_body()); }
        if reply.status == 200 {
            match reply.body {
                Some(b) => {
                    proof { reveal_strlit("/response/docs"); assert("/response/docs"@ =~= docs_pointer()); }
                    match json_lookup(b.as_str(), "/response/docs") {
                        Some(found) => Ok(found),
                        None => Err(RSolrError::Other { status: 200, body_text: b }),
                    }
                },
                None => Err(RSolrError::Other { status: 200, body_text: String::from_str("(no UTF-8 body)") }),
            }
        } else if reply.status == 404 {
            Err(RSolrError::NotFound)
        } else {
            Err(error_of_status(reply.status, reply.body))
        }
    }

    /// The address of the command.
    pub fn generate_url_str(&self) -> (r: String)
        ensures
            r@ == address_text(self@.base, self@.segments, self@.params),
    {
        render_address(&self.base, &self.segments, &self.params)
    }
}

} // verus!
