use rsolr::date::Date;

#[test]
fn test_as_str_returns_date() {
    let date_string = "NOW";
    assert_eq!(Date::new(date_string).as_str(), date_string);
}

#[test]
fn test_plus_concat_text() {
    let date_string = "NOW";
    let expected = "NOW+2MONTHS";
    let mut date = Date::new(date_string);
    date.plus(Date::month(2).as_str());
    assert_eq!(date.as_str(), expected);
}

#[test]
fn test_minus_concat_text() {
    let date_string = "NOW";
    let expected = "NOW-2YEARS";
    let mut date = Date::new(date_string);
    date.minus(Date::year(2).as_str());
    assert_eq!(date.as_str(), expected);
}

#[test]
fn in_place_date_steps_chain() {
    let mut date = Date::new("NOW");
    date.plus(&Date::minute(5)).minus(&Date::second(7));
    assert_eq!(date.as_str(), "NOW+5MINUTES-7SECONDS");
}
