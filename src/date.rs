//! Date-math expressions edited in place.
use vstd::prelude::*;

use crate::query::{date_step, duration_text, render_date_step};
use crate::query::Date as DateValue;

verus! {

/// A date-math expression such as `NOW+2MONTHS`, edited in place.
pub struct Date {
    date: String,
}

impl View for Date {
    type V = Seq<char>;

    closed spec fn view(&self) -> Seq<char> {
        self.date@
    }
}

impl Date {
    /// A duration of `count` years.
    pub fn year(count: u32) -> (r: String)
        ensures
            r@ == duration_text(count as nat, seq!['Y', 'E', 'A', 'R', 'S']),
    {
        DateValue::year(count)
    }

    /// A duration of `count` months.
    pub fn month(count: u32) -> (r: String)
        ensures
            r@ == duration_text(count as nat, seq!['M', 'O', 'N', 'T', 'H', 'S']),
    {
        DateValue::month(count)
    }

    /// A duration of `count` days.
    pub fn day(count: u32) -> (r: String)
        ensures
            r@ == duration_text(count as nat, seq!['D', 'A', 'Y', 'S']),
    {
        DateValue::day(count)
    }

    /// A duration of `count` hours.
    pub fn hour(count: u32) -> (r: String)
        ensures
            r@ == duration_text(count as nat, seq!['H', 'O', 'U', 'R', 'S']),
    {
        DateValue::hour(count)
    }

    /// A duration of `count` minutes.
    pub fn minute(count: u32) -> (r: String)
        ensures
            r@ == duration_text(count as nat, seq!['M', 'I', 'N', 'U', 'T', 'E', 'S']),
    {
        DateValue::minute(count)
    }

    /// A duration of `count` seconds.
    pub fn second(count: u32) -> (r: String)
        ensures
            r@ == duration_text(count as nat, seq!['S', 'E', 'C', 'O', 'N', 'D', 'S']),
    {
        DateValue::second(count)
    }

    /// A date expression starting from `date_string` (for instance `NOW`).
    pub fn new(date_string: &str) -> (r: Self)
        ensures
            r@ == date_string@,
    {
        Date { date: String::from_str(date_string) }
    }

    /// Adds a duration.
    pub fn plus(&mut self, duration: &str) -> (r: &mut Self)
        ensures
            r@ == date_step(old(self)@, '+', duration@),
            *final(self) == *final(r),
    {
        proof { reveal_strlit("+"); }
        render_date_step(&mut self.date, "+", duration);
        self
    }

    /// Subtracts a duration.
    pub fn minus(&mut self, duration: &str) -> (r: &mut Self)
        ensures
            r@ == date_step(old(self)@, '-', duration@),
            *final(self) == *final(r),
    {
        proof { reveal_strlit("-"); }
        render_date_step(&mut self.date, "-", duration);
        self
    }

    /// The text of the expression.
    pub fn as_str(&self) -> (r: &str)
        ensures
            r@ == self@,
    {
        self.date.as_str()
    }
}

} // verus!
