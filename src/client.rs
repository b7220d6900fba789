//! The request builder of the search-server client, and the decoding of the
//! server's replies.
use vstd::prelude::*;

use crate::cursor::{Cursor, CursorView};
use crate::error::{ErrorView, RSolrError};
use crate::text::{decimal, decimal_string, push_char};
use crate::wire::{
    address_with_path, form_encode, form_encoded, json_at, json_lookup, json_quoted, json_string_literal,
    texts_of, url_with_path, FoundView, JsonFound,
};

verus! {

/// A query parameter as a pair of texts.
pub type PairView = (Seq<char>, Seq<char>);

/// What the request carries: a JSON body or an empty body (both sent by POST), or nothing (GET).
#[derive(Clone, Debug)]
pub enum Payload {
    Body(String),
    Empty,
    Nothing,
}

/// A payload with its JSON text as a sequence of characters.
pub enum PayloadView {
    Body(Seq<char>),
    Empty,
    Nothing,
}

impl View for Payload {
    type V = PayloadView;

    open spec fn view(&self) -> PayloadView {
        match self {
            Payload::Body(b) => PayloadView::Body(b@),
            Payload::Empty => PayloadView::Empty,
            Payload::Nothing => PayloadView::Nothing,
        }
    }
}

/// The request handlers that the client's shorthands use.
#[non_exhaustive]
pub struct RequestHandlers;

impl RequestHandlers {
    pub const QUERY: &'static str = "select";
    pub const CREATE: &'static str = "update/json/docs";
    pub const DELETE: &'static str = "update";
}

/// The HTTP verb of a request.
#[derive(Clone, Copy, Debug, PartialEq, Eq, Structural)]
pub enum Method {
    Get,
    Post,
}

/// A request ready for the transport: verb, address, and the JSON body where there is one.
#[derive(Clone, Debug)]
pub struct HttpRequest {
    pub method: Method,
    pub url: String,
    pub body: Option<String>,
}

/// What the transport brought back: the status and the body, `None` where the
/// body is no UTF-8 text.
#[derive(Clone, Debug)]
pub struct HttpReply {
    pub status: u16,
    pub body: Option<String>,
}

/// The state of a client.
pub struct ClientView {
    pub base: Seq<char>,
    pub collection: Seq<char>,
    pub handler: Seq<char>,
    pub params: Seq<PairView>,
    pub payload: PayloadView,
    pub response: Option<Seq<char>>,
}

/// A client of one collection on a search server.
#[derive(Clone, Debug)]
pub struct Client {
    base: String,
    collection: String,
    handler: String,
    params: Vec<(String, String)>,
    payload: Payload,
    response: Option<String>,
}

/// The pairs of texts of a vector of string pairs.
pub open spec fn pairs_view(v: Seq<(String, String)>) -> Seq<PairView> {
    v.map_values(|p: (String, String)| (p.0@, p.1@))
}

impl View for Client {
    type V = ClientView;

    closed spec fn view(&self) -> ClientView {
        ClientView {
            base: self.base@,
            collection: self.collection@,
            handler: self.handler@,
            params: pairs_view(self.params@),
            payload: self.payload@,
            response: match self.response { Some(r) => Some(r@), None => None },
        }
    }
}

// The fixed texts of requests: the first path segment, parameter keys and
// values, and handlers.
pub open spec fn solr_segment() -> Seq<char> { seq!['s', 'o', 'l', 'r'] }
pub open spec fn key_q() -> Seq<char> { seq!['q'] }
pub open spec fn key_start() -> Seq<char> { seq!['s', 't', 'a', 'r', 't'] }
pub open spec fn key_rows() -> Seq<char> { seq!['r', 'o', 'w', 's'] }
pub open spec fn key_df() -> Seq<char> { seq!['d', 'f'] }
pub open spec fn key_sort() -> Seq<char> { seq!['s', 'o', 'r', 't'] }
pub open spec fn key_commit() -> Seq<char> { seq!['c', 'o', 'm', 'm', 'i', 't'] }
pub open spec fn key_def_type() -> Seq<char> { seq!['d', 'e', 'f', 'T', 'y', 'p', 'e'] }
pub open spec fn key_facet() -> Seq<char> { seq!['f', 'a', 'c', 'e', 't'] }
pub open spec fn key_facet_field() -> Seq<char> { seq!['f', 'a', 'c', 'e', 't', '_', 'f', 'i', 'e', 'l', 'd'] }
pub open spec fn key_facet_query() -> Seq<char> { seq!['f', 'a', 'c', 'e', 't', '_', 'q', 'u', 'e', 'r', 'y'] }
pub open spec fn key_cursor_mark() -> Seq<char> { seq!['c', 'u', 'r', 's', 'o', 'r', 'M', 'a', 'r', 'k'] }
pub open spec fn value_on() -> Seq<char> { seq!['o', 'n'] }
pub open spec fn value_true() -> Seq<char> { seq!['t', 'r', 'u', 'e'] }
pub open spec fn value_star() -> Seq<char> { seq!['*'] }
pub open spec fn value_dismax() -> Seq<char> { seq!['d', 'i', 's', 'm', 'a', 'x'] }
pub open spec fn value_edismax() -> Seq<char> { seq!['e', 'd', 'i', 's', 'm', 'a', 'x'] }
pub open spec fn handler_select() -> Seq<char> { seq!['s', 'e', 'l', 'e', 'c', 't'] }
pub open spec fn handler_update() -> Seq<char> { seq!['u', 'p', 'd', 'a', 't', 'e'] }
pub open spec fn handler_update_docs() -> Seq<char> {
    seq!['u', 'p', 'd', 'a', 't', 'e', '/', 'j', 's', 'o', 'n', '/', 'd', 'o', 'c', 's']
}

/// The JSON pointer of the server's error message.
pub open spec fn error_msg_pointer() -> Seq<char> {
    seq!['/', 'e', 'r', 'r', 'o', 'r', '/', 'm', 's', 'g']
}

/// The JSON pointer of the next cursor mark.
pub open spec fn next_mark_pointer() -> Seq<char> {
    seq!['/', 'n', 'e', 'x', 't', 'C', 'u', 'r', 's', 'o', 'r', 'M', 'a', 'r', 'k']
}

/// The body text that stands for a body that is no UTF-8 text.
pub open spec fn unreadable_body() -> Seq<char> {
    seq!['(', 'n', 'o', ' ', 'U', 'T', 'F', '-', '8', ' ', 'b', 'o', 'd', 'y', ')']
}

/// The path segments of a request: `solr`, the collection and the handler.
pub open spec fn path_segments(collection: Seq<char>, handler: Seq<char>) -> Seq<Seq<char>> {
    seq![solr_segment(), collection, handler]
}

/// The text of one encoded query parameter: `key=value`.
pub open spec fn pair_text(p: PairView) -> Seq<char> {
    p.0 + seq!['='] + p.1
}

/// Encoded parameters joined by `&`, in their order.
pub open spec fn joined(pairs: Seq<PairView>) -> Seq<char>
    decreases pairs.len(),
{
    if pairs.len() == 0 {
        Seq::empty()
    } else if pairs.len() == 1 {
        pair_text(pairs[0])
    } else {
        joined(pairs.drop_last()) + seq!['&'] + pair_text(pairs.last())
    }
}

/// The parameters with key and value form-encoded.
pub open spec fn encoded_pairs(params: Seq<PairView>) -> Seq<PairView> {
    params.map_values(|p: PairView| (form_encoded(p.0), form_encoded(p.1)))
}

/// The query string of the parameters: each form-encoded, in their order, joined by `&`.
pub open spec fn query_text(params: Seq<PairView>) -> Seq<char> {
    joined(encoded_pairs(params))
}

/// The request address of a client: its base with the path
/// `/solr/<collection>/<handler>`, followed by `?` and the query string where
/// there are parameters; empty where the base is no address.
pub open spec fn url_text(c: ClientView) -> Seq<char> {
    address_text(c.base, path_segments(c.collection, c.handler), c.params)
}

/// The address `base` with the given path segments, followed by `?` and the
/// query string where there are parameters; empty where `base` is no address
/// that can hold a path.
pub open spec fn address_text(base: Seq<char>, segments: Seq<Seq<char>>, params: Seq<PairView>) -> Seq<char> {
    match url_with_path(base, segments) {
        Some(path) => if params.len() == 0 { path } else { path + seq!['?'] + query_text(params) },
        None => Seq::empty(),
    }
}

/// How many times the pair `(k, v)` occurs in the parameters.
pub open spec fn pair_count(params: Seq<PairView>, k: Seq<char>, v: Seq<char>) -> nat
    decreases params.len(),
{
    if params.len() == 0 {
        0
    } else {
        pair_count(params.drop_last(), k, v) + if params.last() == (k, v) { 1nat } else { 0nat }
    }
}

/// Whether some parameter has the key `k`.
pub open spec fn has_key(params: Seq<PairView>, k: Seq<char>) -> bool {
    exists|i: int| 0 <= i < params.len() && params[i].0 == k
}

/// The parameters with the value of the first one keyed `k` replaced by `v`;
/// unchanged where no parameter has that key.
pub open spec fn with_first_value(params: Seq<PairView>, k: Seq<char>, v: Seq<char>) -> Seq<PairView>
    decreases params.len(),
{
    if params.len() == 0 {
        params
    } else if params[0].0 == k {
        params.update(0, (k, v))
    } else {
        seq![params[0]] + with_first_value(params.drop_first(), k, v)
    }
}

/// The parameters after a facet switch: `facet=on` added unless it is there.
pub open spec fn with_facet_on(params: Seq<PairView>) -> Seq<PairView> {
    if params.contains((key_facet(), value_on())) {
        params
    } else {
        params.push((key_facet(), value_on()))
    }
}

/// The JSON body that deletes the documents matching a query.
pub open spec fn delete_body(query: Seq<char>) -> Seq<char> {
    seq!['{', '"', 'd', 'e', 'l', 'e', 't', 'e', '"', ':', '{', '"', 'q', 'u', 'e', 'r', 'y', '"', ':']
        + json_quoted(query) + seq!['}', '}']
}

/// The body kept from a successful reply: its text where it is JSON.
pub open spec fn kept_response(body: Option<Seq<char>>) -> Option<Seq<char>> {
    match body {
        Some(b) => if json_at(b, next_mark_pointer()) is Some { Some(b) } else { None },
        None => None,
    }
}

/// The next cursor mark that a kept response holds.
pub open spec fn next_mark(response: Option<Seq<char>>) -> Option<Seq<char>> {
    match response {
        Some(b) => match json_at(b, next_mark_pointer()) {
            Some(Some(FoundView::Text(m))) => Some(m),
            _ => None,
        },
        None => None,
    }
}

/// The error for an error status whose body is `body`, given what was found
/// at `error.msg` in it: the message where it is a string, else the raw body.
pub open spec fn message_error(status: u16, body: Seq<char>, found: Option<Option<FoundView>>) -> ErrorView {
    match found {
        Some(Some(FoundView::Text(msg))) => ErrorView::Syntax(msg),
        _ => ErrorView::Other { status, body_text: body },
    }
}

/// The error for a reply whose status is neither 200 nor 404.
pub open spec fn status_error(status: u16, body: Option<Seq<char>>) -> ErrorView {
    match body {
        Some(b) => message_error(status, b, json_at(b, error_msg_pointer())),
        None => ErrorView::Other { status, body_text: unreadable_body() },
    }
}

/// The text of an optional body.
pub open spec fn body_view(body: Option<String>) -> Option<Seq<char>> {
    match body {
        Some(b) => Some(b@),
        None => None,
    }
}

impl Client {
    /// A client of `collection` on the server at `base_url`, with no handler,
    /// parameter or payload yet.
    pub fn new(base_url: &str, collection: &str) -> (r: Self)
        ensures
            r@ == (ClientView {
                base: base_url@,
                collection: collection@,
                handler: Seq::empty(),
                params: Seq::empty(),
                payload: PayloadView::Nothing,
                response: None,
            }),
    {
        let r = Client {
            base: String::from_str(base_url),
            collection: String::from_str(collection),
            handler: String::new(),
            params: Vec::new(),
            payload: Payload::Nothing,
            response: None,
        };
        proof { assert(pairs_view(r.params@) =~= Seq::<PairView>::empty()); }
        r
    }

    fn push_param(&mut self, key: &str, value: &str)
        ensures
            final(self)@ == (ClientView { params: old(self)@.params.push((key@, value@)), ..old(self)@ }),
    {
        self.params.push((String::from_str(key), String::from_str(value)));
        proof { assert(pairs_view(self.params@) =~= pairs_view(old(self).params@).push((key@, value@))); }
    }

    /// Appends a query parameter; order is kept and keys may repeat.
    pub fn add_query_param(&mut self, key: &str, value: &str) -> (r: &mut Self)
        ensures
            r@ == (ClientView { params: old(self)@.params.push((key@, value@)), ..old(self)@ }),
            *final(self) == *final(r),
    {
        self.push_param(key, value);
        self
    }

    /// Adds `facet=on` unless the parameters hold it already.
    fn switch_on_facet(&mut self)
        ensures
            final(self)@ == (ClientView { params: with_facet_on(old(self)@.params), ..old(self)@ }),
    {
        proof { reveal_strlit("facet"); assert("facet"@ =~= key_facet()); reveal_strlit("on"); assert("on"@ =~= value_on()); }
        let key = String::from_str("facet");
        let value = String::from_str("on");
        let n = self.params.len();
        let mut i: usize = 0;
        while i < n
            invariant
                n == self.params@.len(),
                i <= n,
                *self == *old(self),
                key@ == key_facet(),
                value@ == value_on(),
                forall|j: int| 0 <= j < i ==> self@.params[j] != (key_facet(), value_on()),
            decreases n - i,
        {
            proof { assert(self@.params[i as int] == (self.params@[i as int].0@, self.params@[i as int].1@)); }
            if self.params[i].0 == key && self.params[i].1 == value {
                proof { assert(self@.params.contains((key_facet(), value_on()))); }
                return;
            }
            i = i + 1;
        }
        proof {
            assert(!self@.params.contains((key_facet(), value_on())));
        }
        self.push_param("facet", "on");
    }

    /// Asks for the facet counts of a field (and switches faceting on once).
    pub fn facet_field(&mut self, field: &str) -> (r: &mut Self)
        ensures
            r@ == (ClientView {
                params: with_facet_on(old(self)@.params).push((key_facet_field(), field@)),
                ..old(self)@
            }),
            *final(self) == *final(r),
    {
        self.switch_on_facet();
        proof { reveal_strlit("facet_field"); assert("facet_field"@ =~= key_facet_field()); }
        self.push_param("facet_field", field);
        self
    }

    /// Asks for the facet count of a query (and switches faceting on once).
    pub fn facet_query(&mut self, query: &str) -> (r: &mut Self)
        ensures
            r@ == (ClientView {
                params: with_facet_on(old(self)@.params).push((key_facet_query(), query@)),
                ..old(self)@
            }),
            *final(self) == *final(r),
    {
        self.switch_on_facet();
        proof { reveal_strlit("facet_query"); assert("facet_query"@ =~= key_facet_query()); }
        self.push_param("facet_query", query);
        self
    }

    /// Sets the request handler (the last path segment); the payload is cleared.
    pub fn request_handler(&mut self, handler: &str) -> (r: &mut Self)
        ensures
            r@ == (ClientView { handler: handler@, payload: PayloadView::Nothing, ..old(self)@ }),
            *final(self) == *final(r),
    {
        self.handler = String::from_str(handler);
        self.payload = Payload::Nothing;
        self
    }

    /// Shorthand for `commit=true`: write operations take effect at once.
    pub fn auto_commit(&mut self) -> (r: &mut Self)
        ensures
            r@ == (ClientView { params: old(self)@.params.push((key_commit(), value_true())), ..old(self)@ }),
            *final(self) == *final(r),
    {
        proof { reveal_strlit("commit"); assert("commit"@ =~= key_commit()); }
        proof { reveal_strlit("true"); assert("true"@ =~= value_true()); }
        self.push_param("commit", "true");
        self
    }

    /// Shorthand for the `start` parameter of basic pagination.
    pub fn start(&mut self, start: u32) -> (r: &mut Self)
        ensures
            r@ == (ClientView { params: old(self)@.params.push((key_start(), decimal(start as nat))), ..old(self)@ }),
            *final(self) == *final(r),
    {
        proof { reveal_strlit("start"); assert("start"@ =~= key_start()); }
        let v = decimal_string(start);
        self.push_param("start", v.as_str());
        self
    }

    /// Shorthand for the `rows` parameter of basic pagination.
    pub fn rows(&mut self, rows: u32) -> (r: &mut Self)
        ensures
            r@ == (ClientView { params: old(self)@.params.push((key_rows(), decimal(rows as nat))), ..old(self)@ }),
            *final(self) == *final(r),
    {
        proof { reveal_strlit("rows"); assert("rows"@ =~= key_rows()); }
        let v = decimal_string(rows);
        self.push_param("rows", v.as_str());
        self
    }

    /// Shorthand for the `q` parameter: the query of the request.
    pub fn query(&mut self, query: &str) -> (r: &mut Self)
        ensures
            r@ == (ClientView { params: old(self)@.params.push((key_q(), query@)), ..old(self)@ }),
            *final(self) == *final(r),
    {
        proof { reveal_strlit("q"); assert("q"@ =~= key_q()); }
        self.push_param("q", query);
        self
    }

    /// Shorthand for the `df` parameter.
    pub fn default_field(&mut self, default_field: &str) -> (r: &mut Self)
        ensures
            r@ == (ClientView { params: old(self)@.params.push((key_df(), default_field@)), ..old(self)@ }),
            *final(self) == *final(r),
    {
        proof { reveal_strlit("df"); assert("df"@ =~= key_df()); }
        self.push_param("df", default_field);
        self
    }

    /// Shorthand for the `sort` parameter.
    pub fn sort(&mut self, sort: &str) -> (r: &mut Self)
        ensures
            r@ == (ClientView { params: old(self)@.params.push((key_sort(), sort@)), ..old(self)@ }),
            *final(self) == *final(r),
    {
        proof { reveal_strlit("sort"); assert("sort"@ =~= key_sort()); }
        self.push_param("sort", sort);
        self
    }

    /// Starts cursor pagination: `cursorMark=*`.
    pub fn cursor(&mut self) -> (r: &mut Self)
        ensures
            r@ == (ClientView { params: old(self)@.params.push((key_cursor_mark(), value_star())), ..old(self)@ }),
            *final(self) == *final(r),
    {
        proof { reveal_strlit("cursorMark"); assert("cursorMark"@ =~= key_cursor_mark()); }
        proof { reveal_strlit("*"); assert("*"@ =~= value_star()); }
        self.push_param("cursorMark", "*");
        self
    }

    /// Selects the dismax query parser.
    pub fn dismax(&mut self) -> (r: &mut Self)
        ensures
            r@ == (ClientView { params: old(self)@.params.push((key_def_type(), value_dismax())), ..old(self)@ }),
            *final(self) == *final(r),
    {
        proof { reveal_strlit("defType"); assert("defType"@ =~= key_def_type()); }
        proof { reveal_strlit("dismax"); assert("dismax"@ =~= value_dismax()); }
        self.push_param("defType", "dismax");
        self
    }

    /// Selects the edismax query parser.
    pub fn edismax(&mut self) -> (r: &mut Self)
        ensures
            r@ == (ClientView { params: old(self)@.params.push((key_def_type(), value_edismax())), ..old(self)@ }),
            *final(self) == *final(r),
    {
        proof { reveal_strlit("defType"); assert("defType"@ =~= key_def_type()); }
        proof { reveal_strlit("edismax"); assert("edismax"@ =~= value_edismax()); }
        self.push_param("defType", "edismax");
        self
    }

    /// Replaces the value of the first `cursorMark` parameter by `cursor_mark`;
    /// nothing changes where there is none.
    pub fn update_cursor_mark(&mut self, cursor_mark: &str) -> (r: &mut Self)
        ensures
            r@ == (ClientView {
                params: with_first_value(old(self)@.params, key_cursor_mark(), cursor_mark@),
                ..old(self)@
            }),
            *final(self) == *final(r),
    {
        proof { reveal_strlit("cursorMark"); assert("cursorMark"@ =~= key_cursor_mark()); }
        let key = String::from_str("cursorMark");
        let n = self.params.len();
        let mut i: usize = 0;
        while i < n
            invariant
                n == self.params@.len(),
                i <= n,
                *self == *old(self),
                key@ == key_cursor_mark(),
                forall|j: int| 0 <= j < i ==> self@.params[j].0 != key_cursor_mark(),
            decreases n - i,
        {
            proof { assert(self@.params[i as int] == (self.params@[i as int].0@, self.params@[i as int].1@)); }
            if self.params[i].0 == key {
                proof { lemma_with_first_value_at(self@.params, key_cursor_mark(), cursor_mark@, i as int); }
                self.params.set(i, (key, String::from_str(cursor_mark)));
                proof {
                    assert(pairs_view(self.params@) =~= pairs_view(old(self).params@).update(
                        i as int, (key_cursor_mark(), cursor_mark@)));
                }
                return self;
            }
            i = i + 1;
        }
        proof { lemma_with_first_value_absent(self@.params, key_cursor_mark(), cursor_mark@); }
        self
    }

    /// The request address: `<base>/solr/<collection>/<handler>`, then `?` and
    /// the form-encoded parameters in their order where there are any. Empty
    /// where the base is no absolute address that can hold a path.
    pub fn url_str(&self) -> (r: String)
        ensures
            r@ == url_text(self@),
    {
        let mut segments: Vec<String> = Vec::new();
        proof { reveal_strlit("solr"); assert("solr"@ =~= solr_segment()); }
        segments.push(String::from_str("solr"));
        segments.push(self.collection.clone());
        segments.push(self.handler.clone());
        proof { assert(texts_of(segments@) =~= path_segments(self@.collection, self@.handler)); }
        render_address(&self.base, &segments, &self.params)
    }

    /// Sets a JSON document (its text) as the payload: the request goes by POST.
    pub fn set_document(&mut self, document: &str) -> (r: &mut Self)
        ensures
            r@ == (ClientView { payload: PayloadView::Body(document@), ..old(self)@ }),
            *final(self) == *final(r),
    {
        self.payload = Payload::Body(String::from_str(document));
        self
    }

    /// Sets an empty payload: the request goes by POST without a body.
    pub fn set_empty_payload(&mut self) -> (r: &mut Self)
        ensures
            r@ == (ClientView { payload: PayloadView::Empty, ..old(self)@ }),
            *final(self) == *final(r),
    {
        self.payload = Payload::Empty;
        self
    }

    /// Clears the payload: the request goes by GET.
    pub fn clear_payload(&mut self) -> (r: &mut Self)
        ensures
            r@ == (ClientView { payload: PayloadView::Nothing, ..old(self)@ }),
            *final(self) == *final(r),
    {
        self.payload = Payload::Nothing;
        self
    }

    /// The payload of the next request.
    pub fn current_payload(&self) -> (r: &Payload)
        ensures
            r@ == self@.payload,
    {
        &self.payload
    }

    /// Shorthand for a query: handler `select` and `q=<query>`.
    pub fn select(&mut self, query: &str) -> (r: &mut Self)
        ensures
            r@ == (ClientView {
                handler: handler_select(),
                payload: PayloadView::Nothing,
                params: old(self)@.params.push((key_q(), query@)),
                ..old(self)@
            }),
            *final(self) == *final(r),
    {
        proof { reveal_strlit("select"); assert("select"@ =~= handler_select()); }
        self.request_handler(RequestHandlers::QUERY).query(query)
    }

    /// Shorthand for adding a document (its JSON text): handler `update/json/docs`.
    pub fn create(&mut self, document: &str) -> (r: &mut Self)
        ensures
            r@ == (ClientView {
                handler: handler_update_docs(),
                payload: PayloadView::Body(document@),
                ..old(self)@
            }),
            *final(self) == *final(r),
    {
        proof { reveal_strlit("update/json/docs"); assert("update/json/docs"@ =~= handler_update_docs()); }
        self.request_handler(RequestHandlers::CREATE).set_document(document)
    }

    /// Same as `create`.
    pub fn upload(&mut self, document: &str) -> (r: &mut Self)
        ensures
            r@ == (ClientView {
                handler: handler_update_docs(),
                payload: PayloadView::Body(document@),
                ..old(self)@
            }),
            *final(self) == *final(r),
    {
        self.create(document)
    }

    /// Shorthand for deleting the documents that match a query: handler
    /// `update` and the body `{"delete":{"query":<query>}}`.
    pub fn delete(&mut self, query: &str) -> (r: &mut Self)
        ensures
            r@ == (ClientView {
                handler: handler_update(),
                payload: PayloadView::Body(delete_body(query@)),
                ..old(self)@
            }),
            *final(self) == *final(r),
    {
        proof {
            reveal_strlit("update"); assert("update"@ =~= handler_update());
            reveal_strlit("{\"delete\":{\"query\":");
            reveal_strlit("}}");
        }
        let mut body = String::from_str("{\"delete\":{\"query\":");
        let quoted = json_string_literal(query);
        body.append(quoted.as_str());
        body.append("}}");
        proof { assert(body@ =~= delete_body(query@)); }
        self.request_handler(RequestHandlers::DELETE).set_document(body.as_str())
    }

    /// Shorthand for a commit: handler `update`, `commit=true`, an empty POST.
    pub fn commit(&mut self) -> (r: &mut Self)
        ensures
            r@ == (ClientView {
                handler: handler_update(),
                payload: PayloadView::Empty,
                params: old(self)@.params.push((key_commit(), value_true())),
                ..old(self)@
            }),
            *final(self) == *final(r),
    {
        proof { reveal_strlit("update"); assert("update"@ =~= handler_update()); }
        self.request_handler("update").auto_commit().set_empty_payload()
    }

    /// The request that `run` sends: POST where there is a payload, GET otherwise.
    pub fn prepare(&self) -> (r: HttpRequest)
        ensures
            r.url@ == url_text(self@),
            r.method == (if self@.payload is Nothing { Method::Get } else { Method::Post }),
            body_view(r.body) == (match self@.payload {
                PayloadView::Body(b) => Some(b),
                _ => None,
            }),
    {
        let url = self.url_str();
        match &self.payload {
            Payload::Body(b) => HttpRequest { method: Method::Post, url, body: Some(b.clone()) },
            Payload::Empty => HttpRequest { method: Method::Post, url, body: None },
            Payload::Nothing => HttpRequest { method: Method::Get, url, body: None },
        }
    }

    /// The JSON text of the last successful reply, if it was JSON.
    pub fn last_response(&self) -> (r: Option<String>)
        ensures
            body_view(r) == self@.response,
    {
        self.response.clone()
    }

    /// A copy of the parameters.
    pub(crate) fn params_copy(&self) -> (r: Vec<(String, String)>)
        ensures
            pairs_view(r@) == self@.params,
    {
        copy_pairs(&self.params)
    }

    /// A copy of the client.
    pub fn duplicate(&self) -> (r: Client)
        ensures
            r@ == self@,
    {
        let payload = match &self.payload {
            Payload::Body(b) => Payload::Body(b.clone()),
            Payload::Empty => Payload::Empty,
            Payload::Nothing => Payload::Nothing,
        };
        let response = match &self.response {
            Some(b) => Some(b.clone()),
            None => None,
        };
        Client {
            base: self.base.clone(),
            collection: self.collection.clone(),
            handler: self.handler.clone(),
            params: copy_pairs(&self.params),
            payload,
            response,
        }
    }

    /// Puts back parameters kept earlier.
    pub(crate) fn set_params(&mut self, params: Vec<(String, String)>)
        ensures
            final(self)@ == (ClientView { params: pairs_view(params@), ..old(self)@ }),
    {
        self.params = params;
    }

    /// Whether the parameters ask for cursor pagination.
    fn in_cursor_mode(&self) -> (r: bool)
        ensures
            r == has_key(self@.params, key_cursor_mark()),
    {
        proof { reveal_strlit("cursorMark"); assert("cursorMark"@ =~= key_cursor_mark()); }
        let key = String::from_str("cursorMark");
        let n = self.params.len();
        let mut i: usize = 0;
        while i < n
            invariant
                n == self.params@.len(),
                i <= n,
                key@ == key_cursor_mark(),
                forall|j: int| 0 <= j < i ==> self@.params[j].0 != key_cursor_mark(),
            decreases n - i,
        {
            proof { assert(self@.params[i as int] == (self.params@[i as int].0@, self.params@[i as int].1@)); }
            if self.params[i].0 == key {
                return true;
            }
            i = i + 1;
        }
        false
    }

    /// Takes in what the transport brought back for the prepared request. On
    /// success (status 200) the body is kept where it is JSON and the
    /// parameters are cleared; on failure nothing changes.
    pub fn apply_reply(&mut self, outcome: Result<HttpReply, String>) -> (r: Result<(), RSolrError>)
        ensures
            match outcome {
                Err(msg) => (r matches Err(e) && e@ == (ErrorView::Network { source: msg@ })),
                Ok(reply) => if reply.status == 200 {
                    r is Ok
                } else if reply.status == 404 {
                    r matches Err(e) && e@ == ErrorView::NotFound
                } else {
                    r matches Err(e) && e@ == status_error(reply.status, body_view(reply.body))
                },
            },
            r is Ok ==> final(self)@ == (ClientView {
                params: Seq::empty(),
                response: kept_response(body_view(outcome->Ok_0.body)),
                ..old(self)@
            }),
            r is Err ==> final(self)@ == old(self)@,
    {
        let reply = match outcome {
            Err(msg) => {
                return Err(RSolrError::Network { source: msg });
            },
            Ok(reply) => reply,
        };
        if reply.status == 200 {
            proof { reveal_strlit("/nextCursorMark"); assert("/nextCursorMark"@ =~= next_mark_pointer()); }
            let kept = match reply.body {
                Some(b) => {
                    match json_lookup(b.as_str(), "/nextCursorMark") {
                        Some(_) => Some(b),
                        None => None,
                    }
                },
                None => None,
            };
            self.response = kept;
            self.params = Vec::new();
            proof { assert(pairs_view(self.params@) =~= Seq::<PairView>::empty()); }
            Ok(())
        } else if reply.status == 404 {
            Err(RSolrError::NotFound)
        } else {
            Err(error_of_status(reply.status, reply.body))
        }
    }

    /// The next cursor mark of the kept response.
    pub fn next_cursor_mark(&self) -> (r: Option<String>)
        ensures
            body_view(r) == next_mark(self@.response),
    {
        proof { reveal_strlit("/nextCursorMark"); assert("/nextCursorMark"@ =~= next_mark_pointer()); }
        match &self.response {
            Some(b) => match json_lookup(b.as_str(), "/nextCursorMark") {
                Some(Some(JsonFound::Text(m))) => Some(m),
                _ => None,
            },
            None => None,
        }
    }

    /// The decisions of `run` once the transport has answered: the reply is
    /// taken in as `apply_reply` says; where the request asked for cursor
    /// pagination and the response names a next cursor mark, a cursor is
    /// returned over a copy of the client as it stood before the parameters
    /// were cleared.
    pub fn complete(&mut self, outcome: Result<HttpReply, String>) -> (r: Result<Option<Cursor>, RSolrError>)
        ensures
            match outcome {
                Err(msg) => (r matches Err(e) && e@ == (ErrorView::Network { source: msg@ })),
                Ok(reply) => if reply.status == 200 {
                    r is Ok
                } else if reply.status == 404 {
                    r matches Err(e) && e@ == ErrorView::NotFound
                } else {
                    r matches Err(e) && e@ == status_error(reply.status, body_view(reply.body))
                },
            },
            r is Ok ==> final(self)@ == (ClientView {
                params: Seq::empty(),
                response: kept_response(body_view(outcome->Ok_0.body)),
                ..old(self)@
            }),
            r is Err ==> final(self)@ == old(self)@,
            r matches Ok(c) ==> (c is Some <==> (has_key(old(self)@.params, key_cursor_mark())
                && next_mark(final(self)@.response) is Some)),
            r matches Ok(Some(c)) ==> c@ == (CursorView {
                client: ClientView { response: final(self)@.response, ..old(self)@ },
                mark: next_mark(final(self)@.response)->Some_0,
                snapshot: None,
                exhausted: false,
            }),
    {
        let cursor_mode = self.in_cursor_mode();
        let params = copy_pairs(&self.params);
        match self.apply_reply(outcome) {
            Err(e) => Err(e),
            Ok(()) => {
                if cursor_mode {
                    match self.next_cursor_mark() {
                        Some(mark) => {
                            let mut snapshot = self.duplicate();
                            snapshot.params = params;
                            proof { assert(snapshot@ == (ClientView { response: self@.response, ..old(self)@ })); }
                            Ok(Some(Cursor::new(snapshot, mark)))
                        },
                        None => Ok(None),
                    }
                } else {
                    Ok(None)
                }
            },
        }
    }
}

/// The error for an error status, given the body and what was found at
/// `error.msg` in it.
pub fn error_from_lookup(status: u16, body: String, found: Option<Option<JsonFound>>) -> (e: RSolrError)
    ensures
        e@ == message_error(status, body@, match found {
            Some(Some(f)) => Some(Some(f@)),
            Some(None) => Some(None),
            None => None,
        }),
{
    match found {
        Some(Some(JsonFound::Text(msg))) => RSolrError::Syntax(msg),
        _ => RSolrError::Other { status, body_text: body },
    }
}

/// The error for a reply whose status is neither 200 nor 404: the server's
/// message where the body is JSON with a string at `error.msg`, else the raw body.
pub fn error_of_status(status: u16, body: Option<String>) -> (e: RSolrError)
    ensures
        e@ == status_error(status, body_view(body)),
{
    match body {
        Some(b) => {
            proof { reveal_strlit("/error/msg"); assert("/error/msg"@ =~= error_msg_pointer()); }
            let found = json_lookup(b.as_str(), "/error/msg");
            error_from_lookup(status, b, found)
        },
        None => {
            proof { reveal_strlit("(no UTF-8 body)"); assert("(no UTF-8 body)"@ =~= unreadable_body()); }
            RSolrError::Other { status, body_text: String::from_str("(no UTF-8 body)") }
        },
    }
}

/// Encoded parameters joined by `&`: `k1=v1&k2=v2...`.
pub fn join_pairs(pairs: &Vec<(String, String)>) -> (r: String)
    ensures
        r@ == joined(pairs_view(pairs@)),
{
    let ghost all = pairs_view(pairs@);
    let mut out = String::new();
    let n = pairs.len();
    let mut i: usize = 0;
    proof { assert(all.subrange(0, 0) =~= Seq::<PairView>::empty()); }
    while i < n
        invariant
            n == pairs@.len(),
            all == pairs_view(pairs@),
            i <= n,
            out@ == joined(all.subrange(0, i as int)),
        decreases n - i,
    {
        let ghost before = out@;
        proof { assert(all[i as int] == (pairs@[i as int].0@, pairs@[i as int].1@)); }
        if i > 0 {
            push_char(&mut out, '&');
        }
        out.append(pairs[i].0.as_str());
        push_char(&mut out, '=');
        out.append(pairs[i].1.as_str());
        proof {
            let next = all.subrange(0, i + 1);
            assert(next.drop_last() =~= all.subrange(0, i as int));
            assert(next.last() == all[i as int]);
            if i == 0 {
                assert(out@ =~= pair_text(next[0]));
            } else {
                assert(out@ =~= before + seq!['&'] + pair_text(next.last()));
            }
        }
        i = i + 1;
    }
    proof { assert(all.subrange(0, n as int) =~= all); }
    out
}

/// The query string of the parameters.
fn query_string(params: &Vec<(String, String)>) -> (r: String)
    ensures
        r@ == query_text(pairs_view(params@)),
{
    let mut encoded: Vec<(String, String)> = Vec::new();
    let n = params.len();
    let mut i: usize = 0;
    while i < n
        invariant
            n == params@.len(),
            i <= n,
            pairs_view(encoded@) == encoded_pairs(pairs_view(params@)).subrange(0, i as int),
        decreases n - i,
    {
        let ghost before = encoded@;
        let k = form_encode(params[i].0.as_str());
        let v = form_encode(params[i].1.as_str());
        encoded.push((k, v));
        proof {
            assert(pairs_view(encoded@) =~= pairs_view(before).push((k@, v@)));
            assert(encoded_pairs(pairs_view(params@)).subrange(0, i + 1) =~= encoded_pairs(pairs_view(params@)).subrange(0, i as int).push((k@, v@)));
        }
        i = i + 1;
    }
    proof { assert(encoded_pairs(pairs_view(params@)).subrange(0, n as int) =~= encoded_pairs(pairs_view(params@))); }
    join_pairs(&encoded)
}

/// The address `base` with the given path segments and query parameters.
pub fn render_address(base: &String, segments: &Vec<String>, params: &Vec<(String, String)>) -> (r: String)
    ensures
        r@ == address_text(base@, texts_of(segments@), pairs_view(params@)),
{
    match address_with_path(base.as_str(), segments) {
        Some(path) => {
            if params.len() == 0 {
                path
            } else {
                let mut out = path;
                push_char(&mut out, '?');
                let q = query_string(params);
                out.append(q.as_str());
                out
            }
        },
        None => String::new(),
    }
}

/// A copy of a vector of string pairs.
pub fn copy_pairs(v: &Vec<(String, String)>) -> (r: Vec<(String, String)>)
    ensures
        pairs_view(r@) == pairs_view(v@),
{
    let mut r: Vec<(String, String)> = Vec::new();
    let n = v.len();
    let mut i: usize = 0;
    while i < n
        invariant
            n == v@.len(),
            i <= n,
            pairs_view(r@) == pairs_view(v@.subrange(0, i as int)),
        decreases n - i,
    {
        let ghost before = r@;
        let k = v[i].0.clone();
        let x = v[i].1.clone();
        proof { assert(k@ == v@[i as int].0@ && x@ == v@[i as int].1@); }
        r.push((k, x));
        proof {
            assert(pairs_view(r@) =~= pairs_view(before).push((v@[i as int].0@, v@[i as int].1@)));
            assert(v@.subrange(0, i + 1) =~= v@.subrange(0, i as int).push(v@[i as int]));
            assert(pairs_view(v@.subrange(0, i + 1)) =~= pairs_view(v@.subrange(0, i as int)).push((v@[i as int].0@, v@[i as int].1@)));
            assert(pairs_view(r@) =~= pairs_view(v@.subrange(0, i + 1)));
        }
        i = i + 1;
    }
    proof { assert(v@.subrange(0, n as int) =~= v@); }
    r
}

proof fn lemma_with_first_value_at(params: Seq<PairView>, k: Seq<char>, v: Seq<char>, i: int)
    requires
        0 <= i < params.len(),
        params[i].0 == k,
        forall|j: int| 0 <= j < i ==> params[j].0 != k,
    ensures
        with_first_value(params, k, v) == params.update(i, (k, v)),
    decreases i,
{
    if i > 0 {
        let rest = params.drop_first();
        assert forall|j: int| 0 <= j < i - 1 implies rest[j].0 != k by {
            assert(rest[j] == params[j + 1]);
        }
        lemma_with_first_value_at(rest, k, v, i - 1);
        assert(seq![params[0]] + rest.update(i - 1, (k, v)) =~= params.update(i, (k, v)));
    }
}

proof fn lemma_with_first_value_absent(params: Seq<PairView>, k: Seq<char>, v: Seq<char>)
    requires
        forall|j: int| 0 <= j < params.len() ==> params[j].0 != k,
    ensures
        with_first_value(params, k, v) == params,
    decreases params.len(),
{
    if params.len() > 0 {
        let rest = params.drop_first();
        assert forall|j: int| 0 <= j < rest.len() implies rest[j].0 != k by {
            assert(rest[j] == params[j + 1]);
        }
        lemma_with_first_value_absent(rest, k, v);
        assert(seq![params[0]] + rest =~= params);
    }
}

/// The parameters after facet calls in turn: each switches faceting on
/// (once) and appends its own pair.
pub open spec fn after_facet_calls(params: Seq<PairView>, calls: Seq<PairView>) -> Seq<PairView>
    decreases calls.len(),
{
    if calls.len() == 0 {
        params
    } else {
        with_facet_on(after_facet_calls(params, calls.drop_last())).push(calls.last())
    }
}

/// Whether a pair is what `facet_field` or `facet_query` appends.
pub open spec fn is_facet_call(p: PairView) -> bool {
    p.0 == key_facet_field() || p.0 == key_facet_query()
}

proof fn lemma_pair_count_zero(params: Seq<PairView>, k: Seq<char>, v: Seq<char>)
    ensures
        pair_count(params, k, v) == 0 <==> !params.contains((k, v)),
    decreases params.len(),
{
    if params.len() > 0 {
        let init = params.drop_last();
        lemma_pair_count_zero(init, k, v);
        if params.contains((k, v)) {
            let i = choose|i: int| 0 <= i < params.len() && params[i] == (k, v);
            if i < params.len() - 1 {
                assert(init[i] == params[i]);
                assert(init.contains((k, v)));
            }
        }
        if init.contains((k, v)) {
            let i = choose|i: int| 0 <= i < init.len() && init[i] == (k, v);
            assert(params[i] == init[i]);
        }
        if params.last() == (k, v) {
            assert(params[params.len() - 1] == (k, v));
        }
    }
}

proof fn lemma_pair_count_push(params: Seq<PairView>, x: PairView, k: Seq<char>, v: Seq<char>)
    ensures
        pair_count(params.push(x), k, v) == pair_count(params, k, v) + if x == (k, v) { 1nat } else { 0nat },
{
    assert(params.push(x).drop_last() =~= params);
}

/// One call of `facet_field` or `facet_query` leaves `facet=on` in the
/// parameters exactly once where it was there at most once, and leaves its
/// count alone where it was there more often.
pub proof fn facet_call_keeps_one_switch(params: Seq<PairView>, call: PairView)
    requires
        is_facet_call(call),
    ensures
        pair_count(with_facet_on(params).push(call), key_facet(), value_on())
            == if pair_count(params, key_facet(), value_on()) == 0 { 1 } else { pair_count(params, key_facet(), value_on()) },
{
    let on = (key_facet(), value_on());
    assert(call != on) by {
        assert(call.0.len() != key_facet().len());
    }
    lemma_pair_count_zero(params, key_facet(), value_on());
    if params.contains(on) {
        lemma_pair_count_push(params, call, key_facet(), value_on());
    } else {
        lemma_pair_count_push(params, on, key_facet(), value_on());
        lemma_pair_count_push(params.push(on), call, key_facet(), value_on());
    }
}

/// However many `facet_field` and `facet_query` calls are made, in whatever
/// order, on parameters that hold `facet=on` at most once, `facet=on` ends up
/// in them exactly once.
pub proof fn facet_calls_switch_on_once(params: Seq<PairView>, calls: Seq<PairView>)
    requires
        calls.len() > 0,
        pair_count(params, key_facet(), value_on()) <= 1,
        forall|i: int| 0 <= i < calls.len() ==> is_facet_call(#[trigger] calls[i]),
    ensures
        pair_count(after_facet_calls(params, calls), key_facet(), value_on()) == 1,
    decreases calls.len(),
{
    let init = calls.drop_last();
    assert(is_facet_call(calls[calls.len() - 1]));
    if init.len() > 0 {
        assert forall|i: int| 0 <= i < init.len() implies is_facet_call(#[trigger] init[i]) by {
            assert(init[i] == calls[i]);
        }
        facet_calls_switch_on_once(params, init);
    }
    facet_call_keeps_one_switch(after_facet_calls(params, init), calls.last());
}

/// The address of a client starts with its base and the path
/// `/solr/<collection>/<handler>` (the handler as one segment); what follows
/// is nothing when there are no parameters, else `?` and the query string.
pub proof fn address_has_fixed_path(c: ClientView)
    ensures
        url_with_path(c.base, path_segments(c.collection, c.handler)) matches Some(p) ==> {
            &&& url_text(c).subrange(0, p.len() as int) == p
            &&& c.params.len() == 0 ==> url_text(c) == p
            &&& c.params.len() > 0 ==> url_text(c) == p + seq!['?'] + query_text(c.params)
        },
{
    if let Some(p) = url_with_path(c.base, path_segments(c.collection, c.handler)) {
        if c.params.len() > 0 {
            assert((p + seq!['?'] + query_text(c.params)).subrange(0, p.len() as int) =~= p);
        } else {
            assert(p.subrange(0, p.len() as int) =~= p);
        }
    }
}

/// After a successful exchange (which clears the parameters) the address is
/// the bare path `<base>/solr/<collection>/<handler>`.
pub proof fn address_after_success(before: ClientView, body: Option<Seq<char>>)
    ensures
        ({
            let after = ClientView { params: Seq::empty(), response: kept_response(body), ..before };
            url_text(after) == match url_with_path(before.base, path_segments(before.collection, before.handler)) {
                Some(p) => p,
                None => Seq::empty(),
            }
        }),
{
}

} // verus!
