use rsolr::facet_fields::FacetFields;

fn fields() -> FacetFields {
    FacetFields { fields: r#"{"field_value": ["val1", 123, "val2", 234] }"#.to_string() }
}

#[test]
fn test_get_custom_field_count() {
    let facet_fields = fields();
    assert_eq!(facet_fields.get_count("field_value", "val2"), Some(234))
}

#[test]
fn test_returns_none_if_no_field() {
    let facet_fields = fields();
    assert_eq!(facet_fields.get_count("not_existing", "val1"), None);
}

#[test]
fn test_returns_none_if_no_field_value() {
    let facet_fields = fields();
    assert_eq!(facet_fields.get_count("field_value", "not_existing"), None);
}

#[test]
fn test_get_all_field_values() {
    let facet_fields = fields();
    let expected_values = vec!["val1".to_string(), "val2".to_string()];
    assert_eq!(facet_fields.get_all_values_of("field_value"), Some(expected_values));
}

#[test]
fn test_get_all_none_from_notexisting_field() {
    let facet_fields = fields();
    assert_eq!(facet_fields.get_all_values_of("field_value2342"), None);
}

#[test]
fn count_of_last_value_is_none() {
    let facet_fields = FacetFields { fields: r#"{"f": ["a", 1, "b"]}"#.to_string() };
    assert_eq!(facet_fields.get_count("f", "b"), None);
    assert_eq!(facet_fields.get_count("f", "a"), Some(1));
}

#[test]
fn count_that_is_no_integer_is_none() {
    let facet_fields = FacetFields { fields: r#"{"f": ["a", 1.5, "b", -2, "c", "d"]}"#.to_string() };
    assert_eq!(facet_fields.get_count("f", "a"), None);
    assert_eq!(facet_fields.get_count("f", "b"), None);
    assert_eq!(facet_fields.get_count("f", "c"), None);
}

#[test]
fn field_that_is_no_array_has_no_values() {
    let facet_fields = FacetFields { fields: r#"{"f": {"a": 1}}"#.to_string() };
    assert_eq!(facet_fields.get_all_values_of("f"), None);
    assert_eq!(facet_fields.get_count("f", "a"), None);
}

#[test]
fn empty_array_has_no_values() {
    let facet_fields = FacetFields { fields: r#"{"f": []}"#.to_string() };
    assert_eq!(facet_fields.get_all_values_of("f"), Some(vec![]));
}
