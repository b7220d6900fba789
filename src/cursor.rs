//! Cursor pagination: the same request sent again with each new cursor mark
//! until the server repeats the mark.
use vstd::prelude::*;

use crate::client::{
    body_view, copy_pairs, key_cursor_mark, kept_response, next_mark, pairs_view, status_error, url_text,
    with_first_value, Client, ClientView, HttpReply, HttpRequest, Method, PairView, PayloadView,
};
use crate::error::{ErrorView, RSolrError};

verus! {

/// The state of a cursor.
pub struct CursorView {
    /// The client that sends each page's request.
    pub client: ClientView,
    /// The cursor mark that the next request carries.
    pub mark: Seq<char>,
    /// The parameters of the first page's request, kept for the later ones.
    pub snapshot: Option<Seq<PairView>>,
    /// Whether the server has repeated the mark: no page follows.
    pub exhausted: bool,
}

/// Pagination cursor.
#[derive(Debug)]
pub struct Cursor {
    client: Client,
    cursor_mark: String,
    snapshot: Option<Vec<(String, String)>>,
    exhausted: bool,
}

impl View for Cursor {
    type V = CursorView;

    closed spec fn view(&self) -> CursorView {
        CursorView {
            client: self.client@,
            mark: self.cursor_mark@,
            snapshot: match self.snapshot { Some(p) => Some(pairs_view(p@)), None => None },
            exhausted: self.exhausted,
        }
    }
}

/// The parameters that the next page's request starts from.
pub open spec fn page_params(c: CursorView) -> Seq<PairView> {
    match c.snapshot {
        Some(p) => p,
        None => c.client.params,
    }
}

/// The client as it sends the next page's request.
pub open spec fn page_client(c: CursorView) -> ClientView {
    ClientView {
        params: with_first_value(page_params(c), key_cursor_mark(), c.mark),
        ..c.client
    }
}

impl Cursor {
    /// A cursor over `client`'s request, starting at `cursor_mark`.
    pub fn new(client: Client, cursor_mark: String) -> (r: Self)
        ensures
            r@ == (CursorView { client: client@, mark: cursor_mark@, snapshot: None, exhausted: false }),
    {
        Cursor { client, cursor_mark, snapshot: None, exhausted: false }
    }

    /// The request for the next page: the first page's parameters with the
    /// current cursor mark. `None` once the server has repeated the mark.
    pub fn next_request(&mut self) -> (r: Option<HttpRequest>)
        ensures
            old(self)@.exhausted ==> r is None && final(self)@ == old(self)@,
            !old(self)@.exhausted ==> final(self)@ == (CursorView {
                client: page_client(old(self)@),
                snapshot: Some(page_params(old(self)@)),
                ..old(self)@
            }),
            !old(self)@.exhausted ==> (r matches Some(req) && req.url@ == url_text(page_client(old(self)@))
                && req.method == (if old(self)@.client.payload is Nothing { Method::Get } else { Method::Post })
                && body_view(req.body) == (match old(self)@.client.payload {
                    PayloadView::Body(b) => Some(b),
                    _ => None,
                })),
    {
        if self.exhausted {
            return None;
        }
        match &self.snapshot {
            Some(p) => {
                let params = copy_pairs(p);
                self.client.set_params(params);
            },
            None => {
                self.snapshot = Some(self.client.params_copy());
            },
        }
        self.client.update_cursor_mark(self.cursor_mark.as_str());
        Some(self.client.prepare())
    }

    /// Takes in the reply to the last page's request. Where the response names
    /// a new cursor mark, the page (its JSON text) is returned and the mark
    /// taken for the next request; where it repeats the mark or names none,
    /// iteration ends and `None` is returned. A failed exchange changes nothing,
    /// so the page can be asked for again.
    pub fn complete_page(&mut self, outcome: Result<HttpReply, String>) -> (r: Result<Option<String>, RSolrError>)
        ensures
            match outcome {
                Err(msg) => (r matches Err(e) && e@ == (ErrorView::Network { source: msg@ })),
                Ok(reply) => if reply.status == 200 {
                    r is Ok
                } else if reply.status == 404 {
                    r matches Err(e) && e@ == ErrorView::NotFound
                } else {
                    r matches Err(e) && e@ == status_error(reply.status, body_view(reply.body))
                },
            },
            r is Err ==> final(self)@ == old(self)@,
            r is Ok ==> ({
                let client = ClientView {
                    params: Seq::empty(),
                    response: kept_response(body_view(outcome->Ok_0.body)),
                    ..old(self)@.client
                };
                let next = next_mark(client.response);
                &&& !old(self)@.exhausted ==> (final(self)@.mark, final(self)@.exhausted, r->Ok_0 is Some)
                    == cursor_step(old(self)@.mark, next)
                &&& if next is Some && next != Some(old(self)@.mark) {
                    body_view(r->Ok_0) == client.response
                    && r->Ok_0 is Some
                    && final(self)@ == (CursorView { client, mark: next->Some_0, ..old(self)@ })
                } else {
                    r->Ok_0 is None
                    && final(self)@ == (CursorView { client, exhausted: true, ..old(self)@ })
                }
            }),
    {
        match self.client.apply_reply(outcome) {
            Err(e) => Err(e),
            Ok(()) => {
                match self.client.next_cursor_mark() {
                    Some(next) => {
                        if next == self.cursor_mark {
                            self.exhausted = true;
                            Ok(None)
                        } else {
                            self.cursor_mark = next;
                            Ok(self.client.last_response())
                        }
                    },
                    None => {
                        self.exhausted = true;
                        Ok(None)
                    },
                }
            },
        }
    }

    /// Whether the server has repeated the cursor mark.
    pub fn is_exhausted(&self) -> (r: bool)
        ensures
            r == self@.exhausted,
    {
        self.exhausted
    }

    /// The JSON text of the last page's response (or of the first page, before
    /// any call of `next_request`).
    pub fn last_response(&self) -> (r: Option<String>)
        ensures
            body_view(r) == self@.client.response,
    {
        self.client.last_response()
    }
}

/// What a page's next cursor mark does to a cursor at `mark`: the new mark,
/// whether iteration has ended, and whether a page is yielded.
pub open spec fn cursor_step(mark: Seq<char>, next: Option<Seq<char>>) -> (Seq<char>, bool, bool) {
    if next is Some && next != Some(mark) {
        (next->Some_0, false, true)
    } else {
        (mark, true, false)
    }
}

/// How many pages a cursor at `mark` yields when the server's responses name
/// the next marks `replies` in turn (no request is sent once it has ended).
pub open spec fn pages_yielded(mark: Seq<char>, exhausted: bool, replies: Seq<Option<Seq<char>>>) -> nat
    decreases replies.len(),
{
    if replies.len() == 0 || exhausted {
        0
    } else {
        let (m, e, page) = cursor_step(mark, replies[0]);
        (if page { 1nat } else { 0nat }) + pages_yielded(m, e, replies.drop_first())
    }
}

/// How many of the marks `replies` the server names, starting after `mark`,
/// before one repeats the mark before it (or none is named).
pub open spec fn fresh_marks(mark: Seq<char>, replies: Seq<Option<Seq<char>>>) -> nat
    decreases replies.len(),
{
    if replies.len() > 0 && replies[0] is Some && replies[0] != Some(mark) {
        1 + fresh_marks(replies[0]->Some_0, replies.drop_first())
    } else {
        0
    }
}

/// A cursor that has ended yields no page, whatever the server would answer.
pub proof fn exhausted_cursor_yields_nothing(mark: Seq<char>, replies: Seq<Option<Seq<char>>>)
    ensures
        pages_yielded(mark, true, replies) == 0,
{
}

/// A cursor yields one page for each new mark the server names before it
/// repeats one.
pub proof fn pages_match_fresh_marks(mark: Seq<char>, replies: Seq<Option<Seq<char>>>)
    ensures
        pages_yielded(mark, false, replies) == fresh_marks(mark, replies),
    decreases replies.len(),
{
    if replies.len() > 0 {
        let (m, e, page) = cursor_step(mark, replies[0]);
        if page {
            pages_match_fresh_marks(m, replies.drop_first());
        } else {
            exhausted_cursor_yields_nothing(m, replies.drop_first());
        }
    }
}

} // verus!
