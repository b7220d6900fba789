//! The `facet_fields` part of a response: for each field, an array that
//! alternates values and their counts.
use vstd::prelude::*;

use crate::wire::{json_array, json_array_at, texts_of, FacetEntry, FacetItem};

verus! {

/// The count that follows the first occurrence of the value `key`; `None`
/// where the value is missing, last, or not followed by an integer count.
pub open spec fn count_in(items: Seq<FacetEntry>, key: Seq<char>) -> Option<u64>
    decreases items.len(),
{
    if items.len() == 0 {
        None
    } else if items[0] == FacetEntry::Text(key) {
        if items.len() > 1 {
            match items[1] {
                FacetEntry::Number(n) => n,
                _ => None,
            }
        } else {
            None
        }
    } else {
        count_in(items.drop_first(), key)
    }
}

/// The strings among the elements, in their order.
pub open spec fn texts_in(items: Seq<FacetEntry>) -> Seq<Seq<char>>
    decreases items.len(),
{
    if items.len() == 0 {
        Seq::empty()
    } else {
        let rest = texts_in(items.drop_last());
        match items.last() {
            FacetEntry::Text(s) => rest.push(s),
            _ => rest,
        }
    }
}

/// The entries of a vector of facet items.
pub open spec fn entries(items: Seq<FacetItem>) -> Seq<FacetEntry> {
    items.map_values(|i: FacetItem| i@)
}

/// The count that follows the value `key` in one field's facet array.
pub fn count_of(items: &Vec<FacetItem>, key: &str) -> (r: Option<u64>)
    ensures
        r == count_in(entries(items@), key@),
{
    let wanted = String::from_str(key);
    let n = items.len();
    let mut i: usize = 0;
    proof { assert(entries(items@).subrange(0, n as int) =~= entries(items@)); }
    while i < n
        invariant
            n == items@.len(),
            i <= n,
            wanted@ == key@,
            count_in(entries(items@), key@) == count_in(entries(items@).subrange(i as int, n as int), key@),
        decreases n - i,
    {
        let ghost rest = entries(items@).subrange(i as int, n as int);
        proof { assert(rest[0] == items@[i as int]@); }
        let found = match &items[i] {
            FacetItem::Text(s) => *s == wanted,
            _ => false,
        };
        if found {
            proof { assert(rest[0] == FacetEntry::Text(key@)); }
            if i + 1 < n {
                proof { assert(rest[1] == items@[i + 1]@); }
                return match &items[i + 1] {
                    FacetItem::Number(c) => *c,
                    _ => None,
                };
            }
            return None;
        }
        proof {
            assert(rest.drop_first() =~= entries(items@).subrange(i + 1, n as int));
        }
        i = i + 1;
    }
    None
}

/// The values (the strings) of one field's facet array.
pub fn values_of(items: &Vec<FacetItem>) -> (r: Vec<String>)
    ensures
        texts_of(r@) == texts_in(entries(items@)),
{
    let mut r: Vec<String> = Vec::new();
    let n = items.len();
    let mut i: usize = 0;
    while i < n
        invariant
            n == items@.len(),
            i <= n,
            texts_of(r@) == texts_in(entries(items@).subrange(0, i as int)),
        decreases n - i,
    {
        let ghost before = r@;
        let ghost next = entries(items@).subrange(0, i + 1);
        proof {
            assert(next.drop_last() =~= entries(items@).subrange(0, i as int));
            assert(next.last() == items@[i as int]@);
        }
        match &items[i] {
            FacetItem::Text(s) => {
                r.push(s.clone());
                proof { assert(texts_of(r@) =~= texts_of(before).push(s@)); }
            },
            _ => {},
        }
        i = i + 1;
    }
    proof { assert(entries(items@).subrange(0, n as int) =~= entries(items@)); }
    r
}

/// The fields part of the facets: the JSON text of the `facet_fields` object.
#[derive(Clone, Debug)]
pub struct FacetFields {
    pub fields: String,
}

impl FacetFields {
    /// All values listed for `field`; `None` where the field has no array.
    pub fn get_all_values_of(&self, field: &str) -> (r: Option<Vec<String>>)
        ensures
            match json_array_at(self.fields@, field@) {
                Some(items) => r is Some && texts_of(r->Some_0@) == texts_in(items),
                None => r is None,
            },
    {
        match json_array(self.fields.as_str(), field) {
            Some(items) => Some(values_of(&items)),
            None => None,
        }
    }

    /// The count of the value `key` in `field`.
    pub fn get_count(&self, field: &str, key: &str) -> (r: Option<u64>)
        ensures
            r == match json_array_at(self.fields@, field@) {
                Some(items) => count_in(items, key@),
                None => None,
            },
    {
        match json_array(self.fields.as_str(), field) {
            Some(items) => count_of(&items, key),
            None => None,
        }
    }
}

} // verus!
