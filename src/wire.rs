//! What the library takes from the url and serde_json crates: the text of an
//! address, form encoding, and lookups in JSON text.
use vstd::prelude::*;

verus! {

/// The text of the address `base` once its path is replaced by `segments`
/// (each percent-encoded as one path segment), cut after the path; `None` when
/// `base` is no absolute address that can hold a path.
pub uninterp spec fn url_with_path(base: Seq<char>, segments: Seq<Seq<char>>) -> Option<Seq<char>>;

/// The `application/x-www-form-urlencoded` form of a text.
pub uninterp spec fn form_encoded(s: Seq<char>) -> Seq<char>;

/// A value found in a JSON text.
pub enum FoundView {
    /// A string, by its contents.
    Text(Seq<char>),
    /// Any other value, by its JSON text.
    Value(Seq<char>),
}

/// What a JSON pointer finds in a JSON text: `None` when the text is no JSON,
/// `Some(None)` when the pointer finds nothing.
pub uninterp spec fn json_at(text: Seq<char>, pointer: Seq<char>) -> Option<Option<FoundView>>;

/// A value found in a JSON text.
#[derive(Clone, Debug)]
pub enum JsonFound {
    /// A string, by its contents.
    Text(String),
    /// Any other value, by its JSON text.
    Value(String),
}

impl View for JsonFound {
    type V = FoundView;

    open spec fn view(&self) -> FoundView {
        match self {
            JsonFound::Text(s) => FoundView::Text(s@),
            JsonFound::Value(s) => FoundView::Value(s@),
        }
    }
}

/// The JSON string literal that stands for a text.
pub uninterp spec fn json_quoted(s: Seq<char>) -> Seq<char>;

/// One element of a JSON array, as the facet logic reads it.
pub enum FacetEntry {
    /// A string.
    Text(Seq<char>),
    /// A number, with its value where it is an integer that fits in a `u64`.
    Number(Option<u64>),
    /// Anything else.
    Other,
}

/// The elements of the array held under `field` in the JSON object of `text`;
/// `None` when the text is no JSON object with an array under that key.
pub uninterp spec fn json_array_at(text: Seq<char>, field: Seq<char>) -> Option<Seq<FacetEntry>>;

/// One element of a JSON array, as the facet logic reads it.
pub enum FacetItem {
    Text(String),
    Number(Option<u64>),
    Other,
}

impl View for FacetItem {
    type V = FacetEntry;

    open spec fn view(&self) -> FacetEntry {
        match self {
            FacetItem::Text(s) => FacetEntry::Text(s@),
            FacetItem::Number(n) => FacetEntry::Number(*n),
            FacetItem::Other => FacetEntry::Other,
        }
    }
}

/// The texts of a vector of strings.
pub open spec fn texts_of(v: Seq<String>) -> Seq<Seq<char>> {
    v.map_values(|s: String| s@)
}

/// Relies on url::Url::parse, url::PathSegmentsMut::clear and extend, and slicing
/// at url::Position::AfterPath: the address with the given path segments.
#[verifier::external_body]
pub fn address_with_path(base: &str, segments: &Vec<String>) -> (r: Option<String>)
    ensures
        match r {
            Some(t) => url_with_path(base@, texts_of(segments@)) == Some(t@),
            None => url_with_path(base@, texts_of(segments@)) is None,
        },
{
    let mut url = url::Url::parse(base).ok()?;
    url.path_segments_mut().ok()?.clear().extend(segments.iter());
    Some(url[..url::Position::AfterPath].to_string())
}

/// Relies on url::form_urlencoded::byte_serialize: the form encoding of the
/// text's UTF-8 bytes; nothing for the empty text.
#[verifier::external_body]
pub fn form_encode(s: &str) -> (r: String)
    ensures
        r@ == form_encoded(s@),
        s@.len() == 0 ==> r@.len() == 0,
{
    url::form_urlencoded::byte_serialize(s.as_bytes()).collect()
}

/// Relies on serde_json::from_str into a serde_json::Value, Value::pointer,
/// and the Display of a Value: what a JSON pointer finds in a JSON text.
#[verifier::external_body]
pub fn json_lookup(text: &str, pointer: &str) -> (r: Option<Option<JsonFound>>)
    ensures
        match r {
            Some(Some(f)) => json_at(text@, pointer@) == Some(Some(f@)),
            Some(None) => json_at(text@, pointer@) == Some(None::<FoundView>),
            None => json_at(text@, pointer@) is None,
        },
{
    match serde_json::from_str::<serde_json::Value>(text) {
        Ok(v) => Some(v.pointer(pointer).map(|m| match m {
            serde_json::Value::String(s) => JsonFound::Text(s.clone()),
            other => JsonFound::Value(other.to_string()),
        })),
        Err(_) => None,
    }
}

/// Relies on the Display of a serde_json::Value::String: the JSON string
/// literal of a text.
#[verifier::external_body]
pub fn json_string_literal(s: &str) -> (r: String)
    ensures
        r@ == json_quoted(s@),
{
    serde_json::Value::String(s.to_string()).to_string()
}

/// Relies on serde_json::from_str into a serde_json::Value, Value::get and
/// Value::as_array: the elements of the array under `field`.
#[verifier::external_body]
pub fn json_array(text: &str, field: &str) -> (r: Option<Vec<FacetItem>>)
    ensures
        match r {
            Some(items) => json_array_at(text@, field@) == Some(items@.map_values(|i: FacetItem| i@)),
            None => json_array_at(text@, field@) is None,
        },
{
    let v = serde_json::from_str::<serde_json::Value>(text).ok()?;
    let items = v.get(field)?.as_array()?;
    Some(items.iter().map(|i| match i {
        serde_json::Value::String(s) => FacetItem::Text(s.clone()),
        serde_json::Value::Number(n) => FacetItem::Number(n.as_u64()),
        _ => FacetItem::Other,
    }).collect())
}

} // verus!
