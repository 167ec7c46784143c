use libbass::catalog::Music;
use libbass::store::SqlValue;

#[test]
fn empty_query_scans_whole_table() {
    let q = Music::query().make_query().unwrap();
    assert_eq!(q, "SELECT * FROM music;");
    assert!(Music::query().make_params().is_empty());
}

#[test]
fn single_condition_binds_first_placeholder() {
    let q = Music::query().title_eq("Adagio");
    assert_eq!(q.make_query().unwrap(), "SELECT * FROM music WHERE title == ?1;");
    assert_eq!(q.make_params(), vec!["Adagio".to_string()]);
}

#[test]
fn placeholders_count_only_binding_conditions() {
    let q = Music::query().has_composer().runtime_lt(90).null_notes().title_contains("ab");
    let rendered = q.make_query().unwrap();
    assert_eq!(
        rendered,
        "SELECT * FROM music WHERE composer IS NOT NULL AND runtime < ?1 AND notes IS NULL AND instr(title, ?2);"
    );
    let params = q.make_params();
    assert_eq!(params, vec!["90".to_string(), "ab".to_string()]);
    let marks = rendered.chars().filter(|c| *c == '?').count();
    assert_eq!(marks, params.len());
}

#[test]
fn placeholder_indices_are_contiguous_from_one() {
    let q = Music::query().runtime_ge(1).null_composer().runtime_le(100).source_ne("x");
    let rendered = q.make_query().unwrap();
    assert_eq!(
        rendered,
        "SELECT * FROM music WHERE runtime >= ?1 AND composer IS NULL AND runtime <= ?2 AND source != ?3;"
    );
    assert_eq!(
        q.make_params(),
        vec!["1".to_string(), "100".to_string(), "x".to_string()]
    );
}

#[test]
fn id_conditions_render_with_declared_order() {
    let q = Music::query().id_eq(7).id_ne(9);
    assert_eq!(
        q.make_query().unwrap(),
        "SELECT * FROM music WHERE id == ?1 AND id != ?2;"
    );
    assert_eq!(q.make_params(), vec!["7".to_string(), "9".to_string()]);
}

#[test]
fn negative_operand_renders_with_sign() {
    let q = Music::query().id_eq(-5);
    assert_eq!(q.make_params(), vec!["-5".to_string()]);
}

#[test]
fn not_contains_renders_negated_substring_test() {
    let q = Music::query().notes_not_contains("draft");
    assert_eq!(
        q.make_query().unwrap(),
        "SELECT * FROM music WHERE NOT instr(notes, ?1);"
    );
}

#[test]
fn every_field_setter_appends_one_condition() {
    let q = Music::query()
        .title_ne("a")
        .source_contains("b")
        .source_not_contains("c")
        .composer_eq("d")
        .composer_ne("e")
        .composer_contains("f")
        .composer_not_contains("g")
        .has_arranger()
        .null_arranger()
        .arranger_eq("h")
        .arranger_ne("i")
        .arranger_contains("j")
        .arranger_not_contains("k")
        .has_notes()
        .notes_eq("l")
        .notes_ne("m")
        .has_runtime()
        .null_runtime()
        .runtime_eq(1)
        .runtime_ne(2)
        .runtime_gt(3);
    let params = q.make_params();
    assert_eq!(params.len(), 16);
    let rendered = q.make_query().unwrap();
    assert_eq!(rendered.chars().filter(|c| *c == '?').count(), 16);
}

#[test]
fn from_row_decodes_a_full_row() {
    let row = vec![
        SqlValue::Int(3),
        SqlValue::Text("Adagio".to_string()),
        SqlValue::Text("Album".to_string()),
        SqlValue::Text("Albinoni".to_string()),
        SqlValue::Null,
        SqlValue::Null,
        SqlValue::Int(90),
    ];
    let m = Music::from_row(&row).unwrap();
    assert_eq!(m.id(), Some(3));
    assert_eq!(m.title, "Adagio");
    assert_eq!(m.source, "Album");
    assert_eq!(m.composer.as_deref(), Some("Albinoni"));
    assert!(m.arranger.is_none());
    assert!(m.notes.is_none());
    assert_eq!(m.runtime, Some(90));
}

#[test]
fn from_row_rejects_misshapen_rows() {
    assert!(Music::from_row(&vec![SqlValue::Int(1)]).is_none());
    let bad = vec![
        SqlValue::Int(1),
        SqlValue::Null,
        SqlValue::Text("s".to_string()),
        SqlValue::Null,
        SqlValue::Null,
        SqlValue::Null,
        SqlValue::Null,
    ];
    assert!(Music::from_row(&bad).is_none());
    let out_of_range = vec![
        SqlValue::Int(1),
        SqlValue::Text("t".to_string()),
        SqlValue::Text("s".to_string()),
        SqlValue::Null,
        SqlValue::Null,
        SqlValue::Null,
        SqlValue::Int(70000),
    ];
    assert!(Music::from_row(&out_of_range).is_none());
}
