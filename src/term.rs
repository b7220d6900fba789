//! A search term edited in place.
use vstd::prelude::*;

use crate::query::{quote_term, quoted, render_term, term_text, TermView};
use crate::text::{decimal, opt_text, push_char, push_decimal};

verus! {

/// A search term with its optional field and modifiers, edited in place.
pub struct Term {
    prefix: String,
    field: Option<String>,
    body: String,
}

impl View for Term {
    type V = TermView;

    closed spec fn view(&self) -> TermView {
        TermView { prefix: self.prefix@, field: opt_text(self.field), body: self.body@ }
    }
}

impl Term {
    /// The text of the term.
    pub open spec fn rendered(&self) -> Seq<char> {
        term_text(self@.prefix, self@.field, self@.body)
    }

    /// A term of the given text, quoted when it holds a space.
    pub fn from_str(term_str: &str) -> (r: Self)
        ensures
            r@ == (TermView { prefix: Seq::empty(), field: None, body: quoted(term_str@) }),
    {
        let r = Term { prefix: String::new(), field: None, body: quote_term(term_str) };
        proof { assert(r@ =~= (TermView { prefix: Seq::empty(), field: None, body: quoted(term_str@) })); }
        r
    }

    /// Restricts the term to a field.
    pub fn in_field(&mut self, field: &str) -> (r: &mut Self)
        ensures
            r@ == (TermView { field: Some(field@), ..old(self)@ }),
            *final(self) == *final(r),
    {
        self.field = Some(String::from_str(field));
        self
    }

    /// Boosts the term by a factor, given in decimal notation.
    pub fn boost(&mut self, value: &str) -> (r: &mut Self)
        ensures
            r@ == (TermView { body: old(self)@.body + seq!['^'] + value@, ..old(self)@ }),
            *final(self) == *final(r),
    {
        push_char(&mut self.body, '^');
        self.body.append(value);
        proof { assert(self.body@ =~= old(self)@.body + seq!['^'] + value@); }
        self
    }

    /// Sets the edit distance (or proximity) of the term.
    pub fn tilde(&mut self, value: u32) -> (r: &mut Self)
        ensures
            r@ == (TermView { body: old(self)@.body + seq!['~'] + decimal(value as nat), ..old(self)@ }),
            *final(self) == *final(r),
    {
        push_char(&mut self.body, '~');
        push_decimal(&mut self.body, value);
        proof { assert(self.body@ =~= old(self)@.body + seq!['~'] + decimal(value as nat)); }
        self
    }

    /// Marks the term as required (`+`).
    pub fn required(&mut self) -> (r: &mut Self)
        ensures
            r@ == (TermView { prefix: seq!['+'], ..old(self)@ }),
            *final(self) == *final(r),
    {
        let mut p = String::new();
        push_char(&mut p, '+');
        self.prefix = p;
        self
    }

    /// Marks the term as prohibited (`-`).
    pub fn prohibit(&mut self) -> (r: &mut Self)
        ensures
            r@ == (TermView { prefix: seq!['-'], ..old(self)@ }),
            *final(self) == *final(r),
    {
        let mut p = String::new();
        push_char(&mut p, '-');
        self.prefix = p;
        self
    }

    /// The text of the term.
    pub fn as_str(&self) -> (r: String)
        ensures
            r@ == self.rendered(),
    {
        render_term(&self.prefix, &self.field, &self.body)
    }
}

} // verus!
