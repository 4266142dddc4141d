use turbosql::compiler::{
    compile_query, extract_explicit_members, ResultShape, StatementKind, TypeTag,
};
use turbosql::connection::ConnectionManager;
use turbosql::db::SqlValue;
use turbosql::error::TurboError;
use turbosql::registry::{RecordShape, SchemaRegistry};
use turbosql::schema::{FieldSpec, FieldType};

fn person_shape() -> RecordShape {
    let fields = vec![
        FieldSpec { name: "rowid".to_owned(), ty: FieldType::I64, skip: false },
        FieldSpec { name: "name".to_owned(), ty: FieldType::Text, skip: false },
        FieldSpec { name: "age".to_owned(), ty: FieldType::I64, skip: false },
    ];
    RecordShape::declare("Person", &fields).unwrap()
}

fn person_setup() -> (SchemaRegistry, Vec<String>) {
    let shape = person_shape();
    let migrations = vec![shape.create_table_sql()];
    let mut registry = SchemaRegistry::new();
    registry.register(shape);
    (registry, migrations)
}

#[test]
fn explicit_members_are_read_before_from() {
    let cols = extract_explicit_members(
        "total_i64, label_String FROM resultitem WHERE source_query = ?",
    )
    .unwrap();
    assert_eq!(cols.len(), 2);
    assert_eq!(cols[0].name, "total");
    assert_eq!(cols[0].tag, TypeTag::TagI64);
    assert_eq!(cols[1].name, "label");
    assert_eq!(cols[1].tag, TypeTag::TagString);
}

#[test]
fn identifiers_after_from_declare_nothing() {
    let cols = extract_explicit_members("count(*) FROM bookmark_timestamp_i64").unwrap();
    assert_eq!(cols.len(), 0);
}

#[test]
fn identifiers_inside_string_literals_declare_nothing() {
    let cols = extract_explicit_members("'x_i64', real_i64").unwrap();
    assert_eq!(cols.len(), 1);
    assert_eq!(cols[0].name, "real");
}

#[test]
fn plain_underscored_names_declare_nothing() {
    let cols = extract_explicit_members("source_query, bookmark_timestamp").unwrap();
    assert_eq!(cols.len(), 0);
}

#[test]
fn from_keyword_matches_in_any_capitalization() {
    let cols = extract_explicit_members("a_i64 from ignored_i64, b_i64").unwrap();
    assert_eq!(cols.len(), 1);
    assert_eq!(cols[0].name, "a");
}

#[test]
fn bare_underscore_prefix_is_a_plain_name() {
    let cols = extract_explicit_members("_i64, x__i64").unwrap();
    // `_i64` has no name part; `x__i64` names the column `x_`
    assert_eq!(cols.len(), 1);
    assert_eq!(cols[0].name, "x_");
    assert_eq!(cols[0].tag, TypeTag::TagI64);
}

#[test]
fn a_full_search_fragment_declares_nothing_and_raises_nothing() {
    let fragment = r#"
  search_highlighted_url,
  title,
  snippet,
  sq.url AS url,
  sq.host AS host,
  bookmark.url IS NOT NULL AS bookmarked,
  IFNULL(hostaffection.affection, 0) AS hostaffection,
  MIN(sq.rank) AS rank

  FROM (
   SELECT
    highlight(resultitem2, 1, '<span class="search-highlight-url">', '</span>') AS search_highlighted_url,
    highlight(resultitem2, 2, '<span class="search-highlight">', '</span>') AS title,
    url,
    host,
    rank
    FROM resultitem2
    WHERE resultitem2 MATCH ?
    LIMIT -1 OFFSET 0
  ) sq

  LEFT JOIN bookmark ON sq.url = bookmark.url
  GROUP BY sq.url
  ORDER BY bookmarked DESC, hostaffection DESC, MIN(sq.rank)
  LIMIT 30
 "#;
    let cols = extract_explicit_members(fragment).unwrap();
    assert_eq!(cols.len(), 0);
}

#[test]
fn unrecognized_type_tag_is_rejected_by_name() {
    let err = extract_explicit_members("total_u65 FROM t").unwrap_err();
    assert_eq!(
        err,
        TurboError::InvalidTypeTag { column: "total_u65".to_owned(), tag: "u65".to_owned() }
    );
}

#[test]
fn param_count_mismatch_reports_expected_and_got() {
    let (registry, migrations) = person_setup();
    let mgr = ConnectionManager::new();
    let result_type = "Person".to_owned();
    let err = turbosql::select(
        &mgr,
        &registry,
        &migrations,
        Some(&result_type),
        "WHERE rowid = ? AND age = ? AND name = ?",
        &vec![SqlValue::Integer(1), SqlValue::Integer(2)],
    )
    .unwrap_err();
    match err {
        TurboError::ParamCountMismatch { expected, got, .. } => {
            assert_eq!(expected, 3);
            assert_eq!(got, 2);
        }
        other => panic!("unexpected error: {:?}", other),
    }
}

#[test]
fn select_synthesizes_from_the_registered_shape() {
    let (registry, migrations) = person_setup();
    let result_type = "Person".to_owned();
    let cq = compile_query(
        StatementKind::Select,
        Some(&result_type),
        "WHERE rowid = ?",
        1,
        &registry,
        &migrations,
    )
    .unwrap();
    assert_eq!(cq.sql, "SELECT rowid, name, age FROM person WHERE rowid = ?");
    assert_eq!(cq.parameter_count, 1);
    match cq.shape {
        ResultShape::Named(labels) => {
            assert_eq!(labels, vec!["rowid".to_owned(), "name".to_owned(), "age".to_owned()])
        }
        other => panic!("unexpected shape: {:?}", other),
    }
}

#[test]
fn select_with_unregistered_type_reports_the_table() {
    let registry = SchemaRegistry::new();
    let migrations: Vec<String> = Vec::new();
    let result_type = "Ghostly".to_owned();
    let err = compile_query(
        StatementKind::Select,
        Some(&result_type),
        "WHERE rowid = ?",
        1,
        &registry,
        &migrations,
    )
    .unwrap_err();
    assert_eq!(err, TurboError::UnknownTable { table: "ghostly".to_owned() });
}

#[test]
fn select_without_type_or_members_has_no_result_shape() {
    let (registry, migrations) = person_setup();
    let err = compile_query(
        StatementKind::Select,
        None,
        "age FROM person",
        0,
        &registry,
        &migrations,
    )
    .unwrap_err();
    assert_eq!(err, TurboError::NoResultShape);
}

#[test]
fn inline_typed_columns_run_end_to_end() {
    let (registry, migrations) = person_setup();
    let mut mgr = ConnectionManager::new();
    mgr.set_db_path(":memory:").unwrap();
    mgr.open(&migrations).unwrap();
    let out = turbosql::select(
        &mgr,
        &registry,
        &migrations,
        None,
        "1 + 1 AS total_i64",
        &Vec::new(),
    )
    .unwrap();
    match &out.shape {
        ResultShape::Inline(cols) => {
            assert_eq!(cols.len(), 1);
            assert_eq!(cols[0].name, "total");
            assert_eq!(cols[0].tag, TypeTag::TagI64);
        }
        other => panic!("unexpected shape: {:?}", other),
    }
    assert_eq!(out.rows, vec![vec![SqlValue::Integer(2)]]);
}

#[test]
fn execute_changes_live_rows() {
    let (registry, migrations) = person_setup();
    let mut mgr = ConnectionManager::new();
    mgr.set_db_path(":memory:").unwrap();
    mgr.open(&migrations).unwrap();
    let n = turbosql::execute(
        &mgr,
        &registry,
        &migrations,
        "INSERT INTO person(name, age) VALUES (?, ?)",
        &vec![SqlValue::Text("Eve".to_owned()), SqlValue::Integer(5)],
    )
    .unwrap();
    assert_eq!(n, 1);
    let out = turbosql::select(
        &mgr,
        &registry,
        &migrations,
        None,
        "name AS who_String FROM person",
        &Vec::new(),
    )
    .unwrap();
    assert_eq!(out.rows, vec![vec![SqlValue::Text("Eve".to_owned())]]);
}

#[test]
fn select_cte_passes_the_statement_through() {
    let (registry, migrations) = person_setup();
    let mut mgr = ConnectionManager::new();
    mgr.set_db_path(":memory:").unwrap();
    mgr.open(&migrations).unwrap();
    let out = turbosql::select_cte(
        &mgr,
        &registry,
        &migrations,
        "WITH t(n_i64) AS (SELECT 7) SELECT n_i64 FROM t",
        &Vec::new(),
    )
    .unwrap();
    assert_eq!(out.rows, vec![vec![SqlValue::Integer(7)]]);
}

#[test]
fn select_cte_without_members_has_no_result_shape() {
    let (registry, migrations) = person_setup();
    let err = compile_query(
        StatementKind::SelectCte,
        None,
        "WITH t(n) AS (SELECT 7) SELECT n FROM t",
        0,
        &registry,
        &migrations,
    )
    .unwrap_err();
    assert_eq!(err, TurboError::NoResultShape);
}

#[test]
fn valid_statement_on_unopened_manager_is_not_open() {
    let (registry, migrations) = person_setup();
    let mgr = ConnectionManager::new();
    let err = turbosql::execute(
        &mgr,
        &registry,
        &migrations,
        "DELETE FROM person",
        &Vec::new(),
    )
    .unwrap_err();
    assert_eq!(err, TurboError::NotOpen);
}

#[test]
fn runtime_constraint_violation_is_a_typed_failure() {
    let migrations =
        vec!["CREATE TABLE uniq (rowid INTEGER PRIMARY KEY, x TEXT UNIQUE)".to_owned()];
    let registry = SchemaRegistry::new();
    let mut mgr = ConnectionManager::new();
    mgr.set_db_path(":memory:").unwrap();
    mgr.open(&migrations).unwrap();
    let insert = "INSERT INTO uniq(x) VALUES (?)";
    let params = vec![SqlValue::Text("same".to_owned())];
    turbosql::execute(&mgr, &registry, &migrations, insert, &params).unwrap();
    let err = turbosql::execute(&mgr, &registry, &migrations, insert, &params).unwrap_err();
    match err {
        TurboError::Db { .. } => {}
        other => panic!("unexpected error: {:?}", other),
    }
}

#[test]
fn generated_statement_texts_follow_the_shape() {
    let shape = person_shape();
    assert_eq!(
        shape.create_table_sql(),
        "CREATE TABLE IF NOT EXISTS person (rowid INTEGER PRIMARY KEY, name TEXT, age INTEGER)"
    );
    assert_eq!(shape.select_sql(), "SELECT rowid, name, age FROM person");
    assert_eq!(shape.insert_sql(), "INSERT INTO person (name, age) VALUES (?, ?)");
    assert_eq!(shape.update_sql(), "UPDATE person SET name = ?, age = ? WHERE rowid = ?");
}

#[test]
fn statements_that_cannot_prepare_fail_with_their_text() {
    let (registry, migrations) = person_setup();
    let err = compile_query(
        StatementKind::Execute,
        None,
        "DELETE FROM nowhere",
        0,
        &registry,
        &migrations,
    )
    .unwrap_err();
    match err {
        TurboError::SqlInvalid { sql, .. } => assert_eq!(sql, "DELETE FROM nowhere"),
        other => panic!("unexpected error: {:?}", other),
    }
}
