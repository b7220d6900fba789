//! Typed fragments of the search server's query language, and their text.
use vstd::prelude::*;

use crate::text::{opt_text, push_char, contains_space, decimal, decimal_string, has_space, join_words, push_decimal};

verus! {

/// A query fragment that renders to query text.
pub trait Stringable {
    /// The text of the fragment.
    spec fn rendered(&self) -> Seq<char>;

    /// Whether the fragment is a composite query (rendered in parentheses when nested).
    spec fn composite(&self) -> bool;

    fn as_str(&self) -> (r: String)
        ensures
            r@ == self.rendered();

    fn is_query(&self) -> (r: bool)
        ensures
            r == self.composite();
}

/// The text of a term: quoted when it holds a space, bare otherwise.
pub open spec fn quoted(s: Seq<char>) -> Seq<char> {
    if has_space(s) {
        seq!['"'] + s + seq!['"']
    } else {
        s
    }
}

/// The text of a term with its prefix, field and suffixes.
pub open spec fn term_text(prefix: Seq<char>, field: Option<Seq<char>>, body: Seq<char>) -> Seq<char> {
    match field {
        Some(f) => prefix + f + seq![':', ' '] + body,
        None => prefix + body,
    }
}

/// The text of a date expression extended by `sign` and a duration.
pub open spec fn date_step(date: Seq<char>, sign: char, duration: Seq<char>) -> Seq<char> {
    date + seq![sign] + duration
}

/// The text of a range of values.
pub open spec fn range_text(from: Seq<char>, to: Seq<char>, inclusive: bool) -> Seq<char> {
    if inclusive {
        seq!['['] + from + seq![' ', 'T', 'O', ' '] + to + seq![']']
    } else {
        seq!['{'] + from + seq![' ', 'T', 'O', ' '] + to + seq!['}']
    }
}

/// A duration token: the decimal count followed by the unit.
pub open spec fn duration_text(count: nat, unit: Seq<char>) -> Seq<char> {
    decimal(count) + unit
}

/// The text of a term written by the caller (quoted when it holds a space).
pub fn quote_term(s: &str) -> (r: String)
    ensures
        r@ == quoted(s@),
{
    if contains_space(s) {
        let mut out = String::from_str("\"");
        out.append(s);
        out.append("\"");
        proof {
            reveal_strlit("\"");
            assert(out@ =~= seq!['"'] + s@ + seq!['"']);
        }
        out
    } else {
        String::from_str(s)
    }
}

/// Renders a term from its parts.
pub fn render_term(prefix: &String, field: &Option<String>, body: &String) -> (r: String)
    ensures
        r@ == term_text(prefix@, opt_text(*field), body@),
{
    let mut out = prefix.clone();
    proof { assert(out@ == prefix@); }
    match field {
        Some(f) => {
            out.append(f.as_str());
            out.append(": ");
            proof { reveal_strlit(": "); }
        },
        None => {},
    }
    out.append(body.as_str());
    proof {
        match field {
            Some(f) => { assert(out@ =~= prefix@ + f@ + seq![':', ' '] + body@); },
            None => {},
        }
    }
    out
}

/// Extends a date expression by `sign` and a duration.
pub fn render_date_step(date: &mut String, sign: &str, duration: &str)
    requires
        sign@.len() == 1,
    ensures
        final(date)@ == date_step(old(date)@, sign@[0], duration@),
{
    let ghost before = date@;
    date.append(sign);
    date.append(duration);
    proof {
        assert(sign@ =~= seq![sign@[0]]);
        assert(date@ =~= date_step(before, sign@[0], duration@));
    }
}

/// The connector `AND`.
pub struct And {}

impl Stringable for And {
    open spec fn rendered(&self) -> Seq<char> {
        seq!['A', 'N', 'D']
    }

    open spec fn composite(&self) -> bool {
        false
    }

    fn as_str(&self) -> (r: String) {
        proof { reveal_strlit("AND"); }
        String::from_str("AND")
    }

    fn is_query(&self) -> (r: bool) {
        false
    }
}

/// The connector `OR`.
pub struct Or {}

impl Stringable for Or {
    open spec fn rendered(&self) -> Seq<char> {
        seq!['O', 'R']
    }

    open spec fn composite(&self) -> bool {
        false
    }

    fn as_str(&self) -> (r: String) {
        proof { reveal_strlit("OR"); }
        String::from_str("OR")
    }

    fn is_query(&self) -> (r: bool) {
        false
    }
}

/// A composite query: terms, connectors and nested queries, in the order they were added.
pub struct Query {
    parts: Vec<String>,
}

impl View for Query {
    /// The text of each part; a nested query is already in parentheses.
    type V = Seq<Seq<char>>;

    closed spec fn view(&self) -> Seq<Seq<char>> {
        self.parts@.map_values(|p: String| p@)
    }
}

/// The text of a nested query as one part of the enclosing one.
pub open spec fn parenthesized(s: Seq<char>) -> Seq<char> {
    seq!['('] + s + seq![')']
}

impl Query {
    fn push_part(&mut self, part: String)
        ensures
            final(self)@ == old(self)@.push(part@),
    {
        self.parts.push(part);
        proof { assert(self.parts@.map_values(|p: String| p@) =~= old(self)@.push(part@)); }
    }

    /// A query of one term.
    pub fn from_term(term: Term) -> (r: Self)
        ensures
            r@ == seq![term.rendered()],
    {
        let mut q = Query { parts: Vec::new() };
        proof { assert(q@ =~= Seq::<Seq<char>>::empty()); }
        q.push_part(term.as_str());
        proof { assert(q@ =~= seq![term.rendered()]); }
        q
    }

    /// Appends a term.
    pub fn term(self, term: Term) -> (r: Self)
        ensures
            r@ == self@.push(term.rendered()),
    {
        let mut this = self;
        this.push_part(term.as_str());
        this
    }

    /// Appends the connector `AND`.
    pub fn and(self) -> (r: Self)
        ensures
            r@ == self@.push(seq!['A', 'N', 'D']),
    {
        let mut this = self;
        let c = And {};
        this.push_part(c.as_str());
        this
    }

    /// Appends the connector `OR`.
    pub fn or(self) -> (r: Self)
        ensures
            r@ == self@.push(seq!['O', 'R']),
    {
        let mut this = self;
        let c = Or {};
        this.push_part(c.as_str());
        this
    }

    /// Appends a nested query, rendered in parentheses.
    pub fn subquery(self, query: Query) -> (r: Self)
        ensures
            r@ == self@.push(parenthesized(join_words(query@))),
    {
        let mut this = self;
        let inner = query.as_str();
        let mut part = String::from_str("(");
        part.append(inner.as_str());
        part.append(")");
        proof {
            reveal_strlit("(");
            reveal_strlit(")");
            assert(part@ =~= parenthesized(join_words(query@)));
        }
        this.push_part(part);
        this
    }
}

impl Stringable for Query {
    open spec fn rendered(&self) -> Seq<char> {
        join_words(self@)
    }

    open spec fn composite(&self) -> bool {
        true
    }

    fn as_str(&self) -> (r: String) {
        let mut out = String::new();
        let mut i: usize = 0;
        proof { assert(self@.subrange(0, 0) =~= Seq::<Seq<char>>::empty()); }
        while i < self.parts.len()
            invariant
                i <= self.parts@.len(),
                self@.len() == self.parts@.len(),
                out@ == join_words(self@.subrange(0, i as int)),
            decreases self.parts@.len() - i,
        {
            proof { assert(self@[i as int] == self.parts@[i as int]@); }
            if i > 0 {
                push_char(&mut out, ' ');
            }
            out.append(self.parts[i].as_str());
            proof {
                let next = self@.subrange(0, i + 1);
                assert(next.drop_last() =~= self@.subrange(0, i as int));
                if i == 0 {
                    assert(out@ =~= next[0]);
                } else {
                    assert(out@ =~= join_words(next.drop_last()) + seq![' '] + next.last());
                }
            }
            i = i + 1;
        }
        proof { assert(self@.subrange(0, self@.len() as int) =~= self@); }
        out
    }

    fn is_query(&self) -> (r: bool) {
        true
    }
}

/// The parts of a term's text.
pub struct TermView {
    pub prefix: Seq<char>,
    pub field: Option<Seq<char>>,
    pub body: Seq<char>,
}

/// A search term with its optional field, boost, proximity and `+`/`-` prefix.
pub struct Term {
    prefix: String,
    field: Option<String>,
    body: String,
}

impl View for Term {
    type V = TermView;

    closed spec fn view(&self) -> TermView {
        TermView { prefix: self.prefix@, field: opt_text(self.field), body: self.body@ }
    }
}

impl Term {
    /// A term of the given text, quoted when it holds a space.
    pub fn from_str(term_str: &str) -> (r: Self)
        ensures
            r@ == (TermView { prefix: Seq::empty(), field: None, body: quoted(term_str@) }),
    {
        let r = Term { prefix: String::new(), field: None, body: quote_term(term_str) };
        proof { assert(r@ =~= (TermView { prefix: Seq::empty(), field: None, body: quoted(term_str@) })); }
        r
    }

    /// Restricts the term to a field.
    pub fn in_field(self, field: &str) -> (r: Self)
        ensures
            r@ == (TermView { field: Some(field@), ..self@ }),
    {
        let mut this = self;
        this.field = Some(String::from_str(field));
        this
    }

    /// Boosts the term by a factor, given in decimal notation.
    pub fn boost(self, value: &str) -> (r: Self)
        ensures
            r@ == (TermView { body: self@.body + seq!['^'] + value@, ..self@ }),
    {
        let mut this = self;
        let ghost before = this.body@;
        push_char(&mut this.body, '^');
        this.body.append(value);
        proof { assert(this.body@ =~= before + seq!['^'] + value@); }
        this
    }

    /// Sets the edit distance (or proximity) of the term.
    pub fn tilde(self, value: u32) -> (r: Self)
        ensures
            r@ == (TermView { body: self@.body + seq!['~'] + decimal(value as nat), ..self@ }),
    {
        let mut this = self;
        let ghost before = this.body@;
        push_char(&mut this.body, '~');
        push_decimal(&mut this.body, value);
        proof { assert(this.body@ =~= before + seq!['~'] + decimal(value as nat)); }
        this
    }

    /// Same as `tilde`: the fuzziness of the term.
    pub fn fuzzy(self, value: u32) -> (r: Self)
        ensures
            r@ == (TermView { body: self@.body + seq!['~'] + decimal(value as nat), ..self@ }),
    {
        self.tilde(value)
    }

    /// Marks the term as required (`+`).
    pub fn required(self) -> (r: Self)
        ensures
            r@ == (TermView { prefix: seq!['+'], ..self@ }),
    {
        let mut this = self;
        let mut p = String::new();
        push_char(&mut p, '+');
        this.prefix = p;
        this
    }

    /// Marks the term as prohibited (`-`).
    pub fn prohibit(self) -> (r: Self)
        ensures
            r@ == (TermView { prefix: seq!['-'], ..self@ }),
    {
        let mut this = self;
        let mut p = String::new();
        push_char(&mut p, '-');
        this.prefix = p;
        this
    }
}

impl Stringable for Term {
    open spec fn rendered(&self) -> Seq<char> {
        term_text(self@.prefix, self@.field, self@.body)
    }

    open spec fn composite(&self) -> bool {
        false
    }

    fn as_str(&self) -> (r: String) {
        render_term(&self.prefix, &self.field, &self.body)
    }

    fn is_query(&self) -> (r: bool) {
        false
    }
}

/// A date-math expression such as `NOW+2MONTHS`.
pub struct Date {
    date: String,
}

impl View for Date {
    type V = Seq<char>;

    closed spec fn view(&self) -> Seq<char> {
        self.date@
    }
}

impl Date {
    /// A duration of `count` years.
    pub fn year(count: u32) -> (r: String)
        ensures
            r@ == duration_text(count as nat, seq!['Y', 'E', 'A', 'R', 'S']),
    {
        let mut r = decimal_string(count);
        r.append("YEARS");
        proof { reveal_strlit("YEARS"); }
        r
    }

    /// A duration of `count` months.
    pub fn month(count: u32) -> (r: String)
        ensures
            r@ == duration_text(count as nat, seq!['M', 'O', 'N', 'T', 'H', 'S']),
    {
        let mut r = decimal_string(count);
        r.append("MONTHS");
        proof { reveal_strlit("MONTHS"); }
        r
    }

    /// A duration of `count` days.
    pub fn day(count: u32) -> (r: String)
        ensures
            r@ == duration_text(count as nat, seq!['D', 'A', 'Y', 'S']),
    {
        let mut r = decimal_string(count);
        r.append("DAYS");
        proof { reveal_strlit("DAYS"); }
        r
    }

    /// A duration of `count` hours.
    pub fn hour(count: u32) -> (r: String)
        ensures
            r@ == duration_text(count as nat, seq!['H', 'O', 'U', 'R', 'S']),
    {
        let mut r = decimal_string(count);
        r.append("HOURS");
        proof { reveal_strlit("HOURS"); }
        r
    }

    /// A duration of `count` minutes.
    pub fn minute(count: u32) -> (r: String)
        ensures
            r@ == duration_text(count as nat, seq!['M', 'I', 'N', 'U', 'T', 'E', 'S']),
    {
        let mut r = decimal_string(count);
        r.append("MINUTES");
        proof { reveal_strlit("MINUTES"); }
        r
    }

    /// A duration of `count` seconds.
    pub fn second(count: u32) -> (r: String)
        ensures
            r@ == duration_text(count as nat, seq!['S', 'E', 'C', 'O', 'N', 'D', 'S']),
    {
        let mut r = decimal_string(count);
        r.append("SECONDS");
        proof { reveal_strlit("SECONDS"); }
        r
    }

    /// A date expression starting from `date_string` (for instance `NOW`).
    pub fn new(date_string: &str) -> (r: Self)
        ensures
            r@ == date_string@,
    {
        Date { date: String::from_str(date_string) }
    }

    /// Adds a duration.
    pub fn plus(self, duration: &str) -> (r: Self)
        ensures
            r@ == date_step(self@, '+', duration@),
    {
        let mut this = self;
        proof { reveal_strlit("+"); }
        render_date_step(&mut this.date, "+", duration);
        this
    }

    /// Subtracts a duration.
    pub fn minus(self, duration: &str) -> (r: Self)
        ensures
            r@ == date_step(self@, '-', duration@),
    {
        let mut this = self;
        proof { reveal_strlit("-"); }
        render_date_step(&mut this.date, "-", duration);
        this
    }
}

impl Stringable for Date {
    open spec fn rendered(&self) -> Seq<char> {
        self@
    }

    open spec fn composite(&self) -> bool {
        false
    }

    fn as_str(&self) -> (r: String) {
        self.date.clone()
    }

    fn is_query(&self) -> (r: bool) {
        false
    }
}

/// Renders a range of values.
pub fn render_range(from: &str, to: &str, inclusive: bool) -> (r: String)
    ensures
        r@ == range_text(from@, to@, inclusive),
{
    let mut out = String::new();
    push_char(&mut out, if inclusive { '[' } else { '{' });
    out.append(from);
    out.append(" TO ");
    out.append(to);
    push_char(&mut out, if inclusive { ']' } else { '}' });
    proof {
        reveal_strlit(" TO ");
        if inclusive {
            assert(out@ =~= range_text(from@, to@, inclusive));
        } else {
            assert(out@ =~= range_text(from@, to@, inclusive));
        }
    }
    out
}

/// A range of values between two bounds, inclusive or exclusive.
pub struct Range<'a> {
    from: &'a str,
    to: &'a str,
    inclusive: bool,
}

impl<'a> Range<'a> {
    /// The bounds of the range.
    pub closed spec fn bounds(&self) -> (Seq<char>, Seq<char>) {
        (self.from@, self.to@)
    }

    /// Whether both bounds belong to the range.
    pub closed spec fn is_inclusive(&self) -> bool {
        self.inclusive
    }

    /// The range `[from TO to]`.
    pub fn inclusive(from: &'a str, to: &'a str) -> (r: Self)
        ensures
            r.bounds() == (from@, to@),
            r.is_inclusive(),
    {
        Range { from, to, inclusive: true }
    }

    /// The range `{from TO to}`.
    pub fn exclusive(from: &'a str, to: &'a str) -> (r: Self)
        ensures
            r.bounds() == (from@, to@),
            !r.is_inclusive(),
    {
        Range { from, to, inclusive: false }
    }
}

impl<'a> Stringable for Range<'a> {
    open spec fn rendered(&self) -> Seq<char> {
        range_text(self.bounds().0, self.bounds().1, self.is_inclusive())
    }

    open spec fn composite(&self) -> bool {
        false
    }

    fn as_str(&self) -> (r: String) {
        render_range(self.from, self.to, self.inclusive)
    }

    fn is_query(&self) -> (r: bool) {
        false
    }
}

} // verus!

