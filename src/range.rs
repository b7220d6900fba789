//! Ranges of values in a query.
use vstd::prelude::*;

use crate::query::{range_text, render_range};

verus! {

/// A range of values between two bounds, inclusive or exclusive.
pub struct Range<'a> {
    from: &'a str,
    to: &'a str,
    inclusive: bool,
}

impl<'a> Range<'a> {
    /// The bounds of the range.
    pub closed spec fn bounds(&self) -> (Seq<char>, Seq<char>) {
        (self.from@, self.to@)
    }

    /// Whether both bounds belong to the range.
    pub closed spec fn is_inclusive(&self) -> bool {
        self.inclusive
    }

    /// The range `[from TO to]`.
    pub fn inclusive(from: &'a str, to: &'a str) -> (r: Self)
        ensures
            r.bounds() == (from@, to@),
            r.is_inclusive(),
    {
        Range { from, to, inclusive: true }
    }

    /// The range `{from TO to}`.
    pub fn exclusive(from: &'a str, to: &'a str) -> (r: Self)
        ensures
            r.bounds() == (from@, to@),
            !r.is_inclusive(),
    {
        Range { from, to, inclusive: false }
    }

    /// The text of the range.
    pub fn as_str(&self) -> (r: String)
        ensures
            r@ == range_text(self.bounds().0, self.bounds().1, self.is_inclusive()),
    {
        render_range(self.from, self.to, self.inclusive)
    }
}

} // verus!
