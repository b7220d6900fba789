use rsolr::query::{Date, Query, Range, Stringable, Term};

#[test]
fn test_query_create_from_a_single_term() {
    let term = Term::from_str("*:*");
    assert_eq!(Query::from_term(term).as_str(), "*:*");
}

#[test]
fn test_query_concat_two_terms() {
    let term = Term::from_str("*:*");
    let term2 = Term::from_str("another term");
    assert_eq!(Query::from_term(term).term(term2).as_str(), "*:* \"another term\"");
}

#[test]
fn test_query_concat_two_terms_with_and() {
    let term = Term::from_str("*:*");
    let term2 = Term::from_str("another term");
    assert_eq!(Query::from_term(term).and().term(term2).as_str(), "*:* AND \"another term\"");
}

#[test]
fn test_query_concat_two_terms_with_or() {
    let term = Term::from_str("*:*");
    let term2 = Term::from_str("another term");
    assert_eq!(Query::from_term(term).or().term(term2).as_str(), "*:* OR \"another term\"");
}

#[test]
fn test_query_concat_a_term_with_a_subquery() {
    let term = Term::from_str("another term");
    let query = Query::from_term(Term::from_str("one_thing"))
        .and()
        .term(Term::from_str("another_thing"));

    assert_eq!(
        Query::from_term(term).or().subquery(query).as_str(),
        "\"another term\" OR (one_thing AND another_thing)"
    );
}

#[test]
fn test_term_as_str_returns_term_as_str_in_quotes() {
    let term = "term term";
    assert_eq!(Term::from_str(term).as_str(), format!("\"{}\"", term));
}

#[test]
fn test_term_as_str_returns_term_without_quotes() {
    let term = "term";
    assert_eq!(Term::from_str(term).as_str(), term);
}

#[test]
fn test_term_in_field_decorate_it_with_field() {
    let term_str = "term term";
    let term = Term::from_str(term_str);
    assert_eq!(term.in_field("field").as_str(), "field: \"term term\"");
}

#[test]
fn test_term_boost_term_chained_with_field() {
    let term = Term::from_str("term term");
    let term_str = term.in_field("field").boost(&3.2f32.to_string()).as_str();
    assert_eq!(term_str, "field: \"term term\"^3.2");
}

#[test]
fn test_term_tilde_term_chained_with_boost() {
    let term = Term::from_str("term term");
    let term_str = term.boost(&3.2f32.to_string()).tilde(20).as_str();
    assert_eq!(term_str, "\"term term\"^3.2~20");
}

#[test]
fn test_term_require_term() {
    let term = Term::from_str("term");
    let term_str = term.required().as_str();
    assert_eq!(term_str, "+term");
}

#[test]
fn test_term_prohibit_term() {
    let term = Term::from_str("term");
    let term_str = term.prohibit().as_str();
    assert_eq!(term_str, "-term");
}

#[test]
fn test_date_as_str_returns_date() {
    let date_string = "NOW";
    assert_eq!(Date::new(date_string).as_str(), date_string);
}

#[test]
fn test_date_plus_concat_text() {
    let date_string = "NOW";
    let expected = "NOW+2MONTHS";
    let date = Date::new(date_string);
    assert_eq!(date.plus(Date::month(2).as_str()).as_str(), expected);
}

#[test]
fn test_date_minus_concat_text() {
    let date_string = "NOW";
    let expected = "NOW-2YEARS";
    let date = Date::new(date_string);
    assert_eq!(date.minus(Date::year(2).as_str()).as_str(), expected);
}

#[test]
fn test_range_create_inclusive_range() {
    let range = Range::inclusive("a", "b");
    assert_eq!(range.as_str(), "[a TO b]");
}

#[test]
fn test_range_create_exclusive_range() {
    let range = Range::exclusive("a", "b");
    assert_eq!(range.as_str(), "{a TO b}");
}

#[test]
fn term_with_all_modifiers_renders_prefix_first() {
    let rendered = Term::from_str("a b")
        .in_field("f")
        .boost(&2.0f32.to_string())
        .fuzzy(3)
        .required()
        .as_str();
    assert_eq!(rendered, "+f: \"a b\"^2~3");
}

#[test]
fn last_prefix_wins() {
    assert_eq!(Term::from_str("x").required().prohibit().as_str(), "-x");
}

#[test]
fn empty_term_stays_bare() {
    assert_eq!(Term::from_str("").as_str(), "");
}

#[test]
fn tilde_renders_large_counts_in_decimal() {
    assert_eq!(Term::from_str("t").tilde(4294967295).as_str(), "t~4294967295");
    assert_eq!(Term::from_str("t").tilde(0).as_str(), "t~0");
}

#[test]
fn durations_of_every_unit() {
    assert_eq!(Date::year(1), "1YEARS");
    assert_eq!(Date::month(12), "12MONTHS");
    assert_eq!(Date::day(30), "30DAYS");
    assert_eq!(Date::hour(0), "0HOURS");
    assert_eq!(Date::minute(59), "59MINUTES");
    assert_eq!(Date::second(100), "100SECONDS");
}

#[test]
fn date_steps_chain() {
    let d = Date::new("NOW").minus(&Date::day(1)).plus(&Date::hour(3));
    assert_eq!(d.as_str(), "NOW-1DAYS+3HOURS");
}

#[test]
fn nested_subqueries_get_parentheses() {
    let inner = Query::from_term(Term::from_str("a")).or().term(Term::from_str("b"));
    let middle = Query::from_term(Term::from_str("c")).and().subquery(inner);
    let outer = Query::from_term(Term::from_str("d")).subquery(middle);
    assert_eq!(outer.as_str(), "d (c AND (a OR b))");
    assert!(outer.is_query());
    assert!(!Term::from_str("x").is_query());
}
