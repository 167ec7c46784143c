use libbass::catalog::{Keyword, Music};
use libbass::store::{init, Error};

fn sample(title: &str, source: &str) -> Music {
    let mut m = Music::new();
    m.title = title.to_string();
    m.source = source.to_string();
    m
}

#[test]
fn insert_assigns_id_once_then_updates() {
    let db = init(None).unwrap();
    let mut m = sample("Adagio", "Album");
    assert!(m.id().is_none());
    m.insert(&db).unwrap();
    let id = m.id().expect("an id is assigned at first insert");
    assert_eq!(Music::list_all(&db).unwrap().len(), 1);

    m.title = "Adagio in G minor".to_string();
    m.insert(&db).unwrap();
    assert_eq!(m.id(), Some(id));
    let all = Music::list_all(&db).unwrap();
    assert_eq!(all.len(), 1);
    assert_eq!(all[0].title, "Adagio in G minor");
}

#[test]
fn by_id_fetches_the_inserted_record() {
    let db = init(None).unwrap();
    let mut m = sample("Waltz", "Book");
    m.composer = Some("Chopin".to_string());
    m.runtime = Some(150);
    m.insert(&db).unwrap();
    let found = Music::by_id(&db, m.id().unwrap()).unwrap().unwrap();
    assert_eq!(found.title, "Waltz");
    assert_eq!(found.source, "Book");
    assert_eq!(found.composer.as_deref(), Some("Chopin"));
    assert_eq!(found.runtime, Some(150));
    assert!(Music::by_id(&db, 999).unwrap().is_none());
}

#[test]
fn field_queries_filter_records() {
    let db = init(None).unwrap();
    let mut a = sample("March", "Book");
    a.composer = Some("Sousa".to_string());
    a.insert(&db).unwrap();
    let mut b = sample("Nocturne", "Album");
    b.composer = Some("Chopin".to_string());
    b.notes = Some("needs work".to_string());
    b.insert(&db).unwrap();

    assert_eq!(Music::by_title(&db, "March").unwrap().len(), 1);
    assert_eq!(Music::by_source(&db, "Album").unwrap().len(), 1);
    assert_eq!(Music::by_composer(&db, "Chopin").unwrap().len(), 1);
    assert_eq!(Music::by_arranger(&db, "nobody").unwrap().len(), 0);
    let noted = Music::notes_contains(&db, "work").unwrap();
    assert_eq!(noted.len(), 1);
    assert_eq!(noted[0].title, "Nocturne");
}

#[test]
fn add_keyword_is_idempotent() {
    let db = init(None).unwrap();
    let mut m = sample("Adagio", "Album");
    m.insert(&db).unwrap();
    let mut k1 = Keyword::from_str("mood:slow");
    m.add_keyword(&db, &mut k1).unwrap();
    let mut k2 = Keyword::from_str("mood:slow");
    m.add_keyword(&db, &mut k2).unwrap();
    let attached = m.keywords(&db).unwrap().unwrap();
    assert_eq!(attached.len(), 1);
    assert_eq!(attached[0].to_string(), "mood:slow");
}

#[test]
fn add_keyword_on_unpersisted_record_is_an_error() {
    let db = init(None).unwrap();
    let mut m = sample("Adagio", "Album");
    let mut k = Keyword::from_str("mood:slow");
    let r = m.add_keyword(&db, &mut k);
    assert!(matches!(r, Err(Error::NotPersisted)));
}

#[test]
fn keywords_of_unpersisted_record_is_no_set_at_all() {
    let db = init(None).unwrap();
    let m = sample("Adagio", "Album");
    assert!(m.keywords(&db).unwrap().is_none());
    let mut p = sample("March", "Book");
    p.insert(&db).unwrap();
    assert_eq!(p.keywords(&db).unwrap().unwrap().len(), 0);
}

#[test]
fn remove_keyword_detaches_only_that_keyword() {
    let db = init(None).unwrap();
    let mut m = sample("Adagio", "Album");
    m.insert(&db).unwrap();
    let mut slow = Keyword::from_str("mood:slow");
    let mut baroque = Keyword::from_str("era:baroque");
    m.add_keyword(&db, &mut slow).unwrap();
    m.add_keyword(&db, &mut baroque).unwrap();
    let mut target = Keyword::from_str("mood:slow");
    m.remove_keyword(&db, &mut target).unwrap();
    let left = m.keywords(&db).unwrap().unwrap();
    assert_eq!(left.len(), 1);
    assert_eq!(left[0].to_string(), "era:baroque");
    let mut again = Keyword::from_str("mood:slow");
    m.remove_keyword(&db, &mut again).unwrap();
    assert_eq!(m.keywords(&db).unwrap().unwrap().len(), 1);
}

#[test]
fn update_keywords_applies_set_difference() {
    let db = init(None).unwrap();
    let mut m = sample("Adagio", "Album");
    m.insert(&db).unwrap();
    let mut a = Keyword::from_str("a");
    let mut b = Keyword::from_str("b");
    m.add_keyword(&db, &mut a).unwrap();
    m.add_keyword(&db, &mut b).unwrap();
    let desired = vec![Keyword::from_str("b"), Keyword::from_str("c")];
    m.update_keywords(&db, &desired).unwrap();
    let mut names: Vec<String> =
        m.keywords(&db).unwrap().unwrap().iter().map(|k| k.to_string()).collect();
    names.sort();
    assert_eq!(names, vec!["b".to_string(), "c".to_string()]);
}

#[test]
fn update_keywords_on_unpersisted_record_is_an_error() {
    let db = init(None).unwrap();
    let mut m = sample("Adagio", "Album");
    let r = m.update_keywords(&db, &vec![Keyword::from_str("a")]);
    assert!(matches!(r, Err(Error::NotPersisted)));
}

#[test]
fn by_keywords_with_empty_list_short_circuits() {
    let db = init(None).unwrap();
    let mut m = sample("Adagio", "Album");
    m.insert(&db).unwrap();
    let none: Vec<Keyword> = Vec::new();
    assert_eq!(Music::by_keywords(&db, &none).unwrap().len(), 0);
}

#[test]
fn by_keywords_ignores_unknown_keywords() {
    let db = init(None).unwrap();
    let mut m = sample("Adagio", "Album");
    m.insert(&db).unwrap();
    let unknown = vec![Keyword::from_str("no:such")];
    let r = Music::by_keywords(&db, &unknown).unwrap();
    assert_eq!(r.len(), 0);
}

#[test]
fn by_keywords_finds_associated_records() {
    let db = init(None).unwrap();
    let mut tagged = sample("Adagio", "Album");
    tagged.insert(&db).unwrap();
    let mut slow = Keyword::from_str("mood:slow");
    tagged.add_keyword(&db, &mut slow).unwrap();
    let mut other = sample("March", "Book");
    other.insert(&db).unwrap();

    let hits = Music::by_keywords(&db, &vec![Keyword::from_str("mood:slow")]).unwrap();
    assert_eq!(hits.len(), 1);
    assert_eq!(hits[0].title, "Adagio");
    assert_eq!(hits[0].source, "Album");
}

#[test]
fn insert_with_keywords_resolves_ids() {
    let db = init(None).unwrap();
    let mut m = sample("Adagio", "Album");
    let mut keys = vec![Keyword::from_str("mood:slow"), Keyword::from_str("era:baroque")];
    m.insert_with_keywords(&db, &mut keys).unwrap();
    assert!(m.id().is_some());
    assert!(keys.iter().all(|k| k.is_db_entry()));
    assert_eq!(m.keywords(&db).unwrap().unwrap().len(), 2);
}

#[test]
fn delete_removes_the_row() {
    let db = init(None).unwrap();
    let mut m = sample("Adagio", "Album");
    m.insert(&db).unwrap();
    assert_eq!(Music::list_all(&db).unwrap().len(), 1);
    m.delete(&db).unwrap();
    assert_eq!(Music::list_all(&db).unwrap().len(), 0);
}

#[test]
fn distinct_listings() {
    let db = init(None).unwrap();
    let mut a = sample("Adagio", "Album");
    a.composer = Some("Albinoni".to_string());
    a.insert(&db).unwrap();
    let mut b = sample("Adagio", "Book");
    b.composer = Some("Albinoni".to_string());
    b.insert(&db).unwrap();
    assert_eq!(Music::list_titles(&db).unwrap(), vec!["Adagio".to_string()]);
    let mut sources = Music::list_sources(&db).unwrap();
    sources.sort();
    assert_eq!(sources, vec!["Album".to_string(), "Book".to_string()]);
    assert_eq!(Music::list_composers(&db).unwrap(), vec!["Albinoni".to_string()]);
}

#[test]
fn listing_composers_fails_on_a_null_cell() {
    let db = init(None).unwrap();
    let mut m = sample("Adagio", "Album");
    m.insert(&db).unwrap();
    assert!(matches!(Music::list_composers(&db), Err(Error::Storage(_))));
}

#[test]
fn keyword_listings() {
    let db = init(None).unwrap();
    let mut m = sample("Adagio", "Album");
    m.insert(&db).unwrap();
    let mut k1 = Keyword::from_str("mood:slow");
    let mut k2 = Keyword::from_str("era:baroque");
    m.add_keyword(&db, &mut k1).unwrap();
    m.add_keyword(&db, &mut k2).unwrap();
    assert_eq!(Keyword::list_all(&db).unwrap().len(), 2);
    let mut cats = Keyword::list_categories(&db).unwrap();
    cats.sort();
    assert_eq!(cats, vec!["era".to_string(), "mood".to_string()]);
}

#[test]
fn insert_update_resolves_an_existing_key() {
    let db = init(None).unwrap();
    let mut first = Keyword::from_str("mood:slow");
    first.insert_update(&db).unwrap();
    assert!(first.is_db_entry());
    let mut second = Keyword::from_str("mood:slow");
    second.insert_update(&db).unwrap();
    assert!(second.is_db_entry());
    assert_eq!(Keyword::list_all(&db).unwrap().len(), 1);
}

#[test]
fn insert_update_always_resolves_an_id_on_success() {
    let db = init(None).unwrap();
    let mut k = Keyword::from_str("mood:slow");
    k.insert_update(&db).unwrap();
    assert!(k.is_db_entry());

    // Renaming the natural key in memory leaves a value whose id matches a
    // stored row but whose key resolves to nothing: that is a failure, not
    // a silent success without an id.
    k.category = Some("tempo".to_string());
    let r = k.insert_update(&db);
    assert!(matches!(r, Err(Error::Storage(_))));
}

#[test]
fn error_messages_name_the_failure() {
    assert_eq!(Error::NotPersisted.message(), "record has not been persisted");
    assert_eq!(Error::Storage("the disk fell over".to_string()).message(), "the disk fell over");
}

#[test]
fn new_with_id_marks_a_persisted_record() {
    let m = Music::new_with_id(4);
    assert!(m.is_db_entry());
    assert_eq!(m.id(), Some(4));
    assert!(!Music::new().is_db_entry());
}
