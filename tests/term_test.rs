use rsolr::term::Term;

#[test]
fn test_as_str_returns_term_as_str_in_quotes() {
    let term = "term term";
    assert_eq!(Term::from_str(term).as_str(), format!("\"{}\"", term));
}

#[test]
fn test_as_str_returns_term_without_quotes() {
    let term = "term";
    assert_eq!(Term::from_str(term).as_str(), term);
}

#[test]
fn test_in_field_decorate_it_with_field() {
    let term_str = "term term";
    let mut term = Term::from_str(term_str);
    term.in_field("field");
    assert_eq!(term.as_str(), "field: \"term term\"");
}

#[test]
fn test_boost_term_chained_with_field() {
    let mut term = Term::from_str("term term");
    let term_str = term.in_field("field").boost(&3.2f32.to_string()).as_str();
    assert_eq!(term_str, "field: \"term term\"^3.2");
}

#[test]
fn test_tile_term_chained_with_boost() {
    let mut term = Term::from_str("term term");
    let term_str = term.boost(&3.2f32.to_string()).tilde(20).as_str();
    assert_eq!(term_str, "\"term term\"^3.2~20");
}

#[test]
fn test_require_term() {
    let mut term = Term::from_str("term");
    let term_str = term.required().as_str();
    assert_eq!(term_str, "+term");
}

#[test]
fn test_prohibit_term() {
    let mut term = Term::from_str("term");
    let term_str = term.prohibit().as_str();
    assert_eq!(term_str, "-term");
}

#[test]
fn in_place_term_puts_prefix_before_field() {
    let mut term = Term::from_str("a b");
    term.in_field("f").boost("2").tilde(3).required();
    assert_eq!(term.as_str(), "+f: \"a b\"^2~3");
}
