use libbass::catalog::Keyword;
use libbass::store::init;

#[test]
fn keyword_parse_with_category() {
    let k = Keyword::from_str("comp:adagio");
    assert_eq!(k.category.as_deref(), Some("comp"));
    assert_eq!(k.keyword, "adagio");
}

#[test]
fn keyword_parse_without_category() {
    let k = Keyword::from_str("adagio");
    assert!(k.category.is_none());
    assert_eq!(k.keyword, "adagio");
}

#[test]
fn keyword_round_trip_with_category() {
    let k = Keyword::from_str("comp:adagio");
    assert_eq!(k.to_string(), "comp:adagio");
}

#[test]
fn keyword_round_trip_plain() {
    let k = Keyword::from_str("adagio");
    assert_eq!(k.to_string(), "adagio");
}

#[test]
fn keyword_round_trip_splits_on_first_colon_only() {
    let k = Keyword::from_str("a:b:c");
    assert_eq!(k.category.as_deref(), Some("a"));
    assert_eq!(k.keyword, "b:c");
    assert_eq!(k.to_string(), "a:b:c");
}

#[test]
fn keyword_round_trip_empty() {
    let k = Keyword::from_str("");
    assert!(k.category.is_none());
    assert_eq!(k.to_string(), "");
}

#[test]
fn keyword_equality_is_on_natural_key() {
    let a = Keyword::from_str("a:b");
    let b = Keyword::from_str("a:b");
    assert!(a == b);
    let c = Keyword::from_str("a:c");
    assert!(a != c);
    let d = Keyword::from_str("b");
    let e = Keyword::from_str("a:b");
    assert!(d != e);
}

#[test]
fn keyword_equality_ignores_persistence_state() {
    let db = init(None).unwrap();
    let mut stored = Keyword::from_str("a:b");
    stored.insert_update(&db).unwrap();
    assert!(stored.is_db_entry());
    let fresh = Keyword::from_str("a:b");
    assert!(!fresh.is_db_entry());
    assert!(stored == fresh);
}

#[test]
fn keyword_new_matches_from_str() {
    let a = Keyword::new("cat:word");
    let b = Keyword::from_str("cat:word");
    assert!(a == b);
}
