use rsolr::range::Range;

#[test]
fn test_create_inclusive_range() {
    let range = Range::inclusive("a", "b");
    assert_eq!(range.as_str(), "[a TO b]");
}

#[test]
fn test_create_exclusive_range() {
    let range = Range::exclusive("a", "b");
    assert_eq!(range.as_str(), "{a TO b}");
}

#[test]
fn range_keeps_date_bounds() {
    let range = Range::inclusive("NOW-1DAYS", "NOW");
    assert_eq!(range.as_str(), "[NOW-1DAYS TO NOW]");
}
