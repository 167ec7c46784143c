use libbass::search::SearchType;

#[test]
fn time_minutes_and_seconds() {
    let t = SearchType::from_time("1:30").unwrap();
    assert_eq!(t.as_num(), 90);
}

#[test]
fn time_plain_seconds() {
    let t = SearchType::from_time("90").unwrap();
    assert_eq!(t.as_num(), 90);
}

#[test]
fn time_empty_is_zero() {
    let t = SearchType::from_time("").unwrap();
    assert_eq!(t.as_num(), 0);
}

#[test]
fn time_sixty_seconds_segment_rejected() {
    assert!(SearchType::from_time("1:60").is_err());
}

#[test]
fn time_fifty_nine_seconds_segment_accepted() {
    let t = SearchType::from_time("1:59").unwrap();
    assert_eq!(t.as_num(), 119);
}

#[test]
fn time_hours_minutes_seconds() {
    let t = SearchType::from_time("1:02:03").unwrap();
    assert_eq!(t.as_num(), 3723);
}

#[test]
fn time_plain_seconds_may_exceed_sixty() {
    let t = SearchType::from_time("100").unwrap();
    assert_eq!(t.as_num(), 100);
}

#[test]
fn time_non_numeric_rejected() {
    assert!(SearchType::from_time("abc").is_err());
    assert!(SearchType::from_time("1:xx").is_err());
}

#[test]
fn time_three_digit_segment_rejected() {
    assert!(SearchType::from_time("1:234").is_err());
}

#[test]
fn time_empty_segment_rejected() {
    assert!(SearchType::from_time(":30").is_err());
    assert!(SearchType::from_time("1:").is_err());
}

#[test]
fn time_too_many_segments_rejected() {
    assert!(SearchType::from_time("1:2:3:4").is_err());
}

#[test]
fn time_minute_segment_bounded_too() {
    assert!(SearchType::from_time("60:00").is_err());
}

#[test]
fn time_overflowing_plain_value_rejected() {
    assert!(SearchType::from_time("70000").is_err());
}

#[test]
fn time_overflowing_clock_value_rejected() {
    assert!(SearchType::from_time("59:59:59").is_err());
}

#[test]
fn validate_time_accepts_exactly_what_parses() {
    assert!(libbass::search::validate_time(""));
    assert!(libbass::search::validate_time("90"));
    assert!(libbass::search::validate_time("1:30"));
    assert!(libbass::search::validate_time("1:02:03"));
    assert!(!libbass::search::validate_time("1:60"));
    assert!(!libbass::search::validate_time("abc"));
    assert!(!libbass::search::validate_time("1:234"));
}

#[test]
fn search_type_renders_its_value() {
    assert_eq!(SearchType::from_time("1:30").unwrap().to_string(), "90");
    assert_eq!(SearchType::Str("Foo Bar".to_string()).to_string(), "Foo Bar");
}
