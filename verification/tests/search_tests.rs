use libbass::catalog::{Keyword, Music};
use libbass::search::{Field, Search, SearchOp};
use libbass::store::init;

fn seeded() -> libbass::store::Db {
    let db = init(None).unwrap();
    let mut short = Music::new();
    short.title = "Short".to_string();
    short.source = "Album".to_string();
    short.runtime = Some(80);
    short.insert(&db).unwrap();
    let mut long = Music::new();
    long.title = "Long".to_string();
    long.source = "Book".to_string();
    long.runtime = Some(100);
    long.insert(&db).unwrap();
    db
}

#[test]
fn negated_ge_executes_as_strictly_below() {
    let db = seeded();
    let s = Search::from_str("runtime not >= 1:30").unwrap();
    let hits = s.execute(&db).unwrap();
    assert_eq!(hits.len(), 1);
    assert_eq!(hits[0].title, "Short");

    let direct = Music::query().runtime_lt(90).run(&db).unwrap();
    assert_eq!(direct.len(), hits.len());
    assert_eq!(direct[0].title, hits[0].title);
}

#[test]
fn runtime_comparisons_execute() {
    let db = seeded();
    let ge = Search::from_str("runtime  >= 1:30").unwrap().execute(&db).unwrap();
    assert_eq!(ge.len(), 1);
    assert_eq!(ge[0].title, "Long");
    let eq = Search::from_str("runtime  == 100").unwrap().execute(&db).unwrap();
    assert_eq!(eq.len(), 1);
    assert_eq!(eq[0].title, "Long");
}

#[test]
fn negated_eq_executes_as_not_equal() {
    let db = seeded();
    let hits = Search::from_str("runtime not == 100").unwrap().execute(&db).unwrap();
    assert_eq!(hits.len(), 1);
    assert_eq!(hits[0].title, "Short");

    let direct = Music::query().runtime_ne(100).run(&db).unwrap();
    assert_eq!(direct.len(), hits.len());
    assert_eq!(direct[0].title, hits[0].title);
}

#[test]
fn invalid_combination_fails_at_parse() {
    assert!(Search::from_str("title has x").is_err());
    assert!(Search::from_str("runtime  in 90").is_err());
    assert!(Search::from_str("notes  '= x").is_err());
    assert!(Search::from_str("title  < x").is_err());
}

#[test]
fn keyword_negation_is_not_supported() {
    assert!(Search::from_str("keywords not has jazz").is_err());
}

#[test]
fn unknown_tokens_fail_at_parse() {
    assert!(Search::from_str("colour  '= blue").is_err());
    assert!(Search::from_str("title  ~= x").is_err());
}

#[test]
fn missing_slots_fail_at_parse() {
    assert!(Search::from_str("title").is_err());
    assert!(Search::from_str("title not").is_err());
    assert!(Search::from_str("title  '=").is_err());
}

#[test]
fn malformed_duration_fails_at_parse() {
    assert!(Search::from_str("runtime  >= 1:60").is_err());
    assert!(Search::from_str("runtime  >= abc").is_err());
}

#[test]
fn text_search_executes() {
    let db = seeded();
    let eq = Search::from_str("title  '= Short").unwrap().execute(&db).unwrap();
    assert_eq!(eq.len(), 1);
    assert_eq!(eq[0].runtime, Some(80));
    let ne = Search::from_str("title not '= Short").unwrap().execute(&db).unwrap();
    assert_eq!(ne.len(), 1);
    assert_eq!(ne[0].title, "Long");
    let within = Search::from_str("source  in oo").unwrap().execute(&db).unwrap();
    assert_eq!(within.len(), 1);
    assert_eq!(within[0].title, "Long");
}

#[test]
fn value_slot_keeps_further_spaces() {
    let db = seeded();
    let mut spaced = Music::new();
    spaced.title = "Two Words".to_string();
    spaced.source = "Album".to_string();
    spaced.insert(&db).unwrap();
    let hits = Search::from_str("title  '= Two Words").unwrap().execute(&db).unwrap();
    assert_eq!(hits.len(), 1);
    assert_eq!(hits[0].title, "Two Words");
}

#[test]
fn keyword_search_splits_value_into_tokens() {
    let db = seeded();
    let all = Music::list_all(&db).unwrap();
    let mut short = all.into_iter().find(|m| m.title == "Short").unwrap();
    let mut slow = Keyword::from_str("mood:slow");
    short.add_keyword(&db, &mut slow).unwrap();

    let hits = Search::from_str("keywords  has mood:slow absent").unwrap().execute(&db).unwrap();
    assert_eq!(hits.len(), 1);
    assert_eq!(hits[0].title, "Short");

    let none = Search::from_str("keywords  has absent").unwrap().execute(&db).unwrap();
    assert_eq!(none.len(), 0);
}

#[test]
fn search_renders_canonical_line() {
    let s = Search::new(Field::Title, SearchOp::StrEq, "Foo", false);
    assert_eq!(s.to_string(), "title  '= Foo");
    let n = Search::new(Field::Runtime, SearchOp::Ge, "1:30", true);
    assert_eq!(n.to_string(), "runtime not >= 90");
}

#[test]
fn rendered_search_reparses_equivalently() {
    let db = seeded();
    let first = Search::from_str("runtime not >= 1:30").unwrap();
    let reparsed = Search::from_str(&first.to_string()).unwrap();
    let a = first.execute(&db).unwrap();
    let b = reparsed.execute(&db).unwrap();
    assert_eq!(a.len(), b.len());
    assert_eq!(a[0].title, b[0].title);
    assert_eq!(reparsed.to_string(), "runtime not >= 90");
}

#[test]
fn op_tokens_round_trip() {
    let ops = [
        SearchOp::Eq,
        SearchOp::StrEq,
        SearchOp::Lt,
        SearchOp::Le,
        SearchOp::Gt,
        SearchOp::Ge,
        SearchOp::Contains,
        SearchOp::Has,
    ];
    for op in ops {
        assert_eq!(SearchOp::from_str(op.token()).unwrap(), op);
    }
    assert!(SearchOp::from_str("=<").is_err());
}

#[test]
fn field_tokens_round_trip() {
    let fields = [
        Field::Title,
        Field::Source,
        Field::Composer,
        Field::Arranger,
        Field::Notes,
        Field::Runtime,
        Field::Keyword,
    ];
    for f in fields {
        assert_eq!(Field::from_str(f.token()).unwrap(), f);
    }
    assert_eq!(Field::Keyword.token(), "keywords");
    assert!(Field::from_str("keyword").is_err());
}
