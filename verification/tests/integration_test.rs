use turbosql::connection::ConnectionManager;
use turbosql::db::SqlValue;
use turbosql::error::TurboError;
use turbosql::mapper::{first_row, TableHandle};
use turbosql::registry::{RecordShape, SchemaRegistry};
use turbosql::validator::schema_of_catalog;
use turbosql::schema::{FieldSpec, FieldType};

fn field(name: &str, ty: FieldType) -> FieldSpec {
    FieldSpec { name: name.to_owned(), ty, skip: false }
}

fn person_fields() -> Vec<FieldSpec> {
    vec![
        field("rowid", FieldType::I64),
        field("name", FieldType::Text),
        field("age", FieldType::I64),
        field("image_jpg", FieldType::Blob),
    ]
}

fn open_in_memory_manager(target: &Vec<String>) -> ConnectionManager {
    let mut mgr = ConnectionManager::new();
    mgr.set_db_path(":memory:").unwrap();
    mgr.open(target).unwrap();
    mgr
}

#[test]
fn it_works() {
    let shape = RecordShape::declare("PersonIntegrationTest", &person_fields()).unwrap();
    let mut registry = SchemaRegistry::new();
    registry.register(shape.clone());

    let migrations = vec![shape.create_table_sql()];
    let mgr = open_in_memory_manager(&migrations);

    let mut handle = TableHandle::new(shape);
    let record = vec![
        SqlValue::Null,
        SqlValue::Text("Bob".to_owned()),
        SqlValue::Integer(42),
        SqlValue::Null,
    ];
    handle.insert(mgr.connection().unwrap(), &record).unwrap();

    let result_type = "PersonIntegrationTest".to_owned();
    let out = turbosql::select(
        &mgr,
        &registry,
        &migrations,
        Some(&result_type),
        "",
        &Vec::new(),
    )
    .unwrap();
    println!("{:#?}", out.rows);
}

#[test]
fn person_scenario_create_insert_select_all() {
    let fields = vec![
        field("rowid", FieldType::I64),
        field("name", FieldType::Text),
        field("age", FieldType::I64),
        field("photo", FieldType::Blob),
    ];
    let shape = RecordShape::declare("Person", &fields).unwrap();
    assert_eq!(shape.table_name, "person");
    assert_eq!(shape.columns.len(), 4);
    assert_eq!(shape.columns[0].name, "rowid");
    assert_eq!(
        shape.create_table_sql(),
        "CREATE TABLE IF NOT EXISTS person (rowid INTEGER PRIMARY KEY, name TEXT, age INTEGER, photo BLOB)"
    );

    let mgr = open_in_memory_manager(&Vec::new());
    let mut handle = TableHandle::new(shape);
    let record = vec![
        SqlValue::Null,
        SqlValue::Text("Bob".to_owned()),
        SqlValue::Integer(42),
        SqlValue::Null,
    ];
    let id = handle.insert(mgr.connection().unwrap(), &record).unwrap();
    assert!(id >= 1);

    let rows = handle.select_all(mgr.connection().unwrap()).unwrap();
    assert_eq!(rows.len(), 1);
    assert_eq!(
        rows[0],
        vec![
            SqlValue::Integer(id),
            SqlValue::Text("Bob".to_owned()),
            SqlValue::Integer(42),
            SqlValue::Null,
        ]
    );
}

#[test]
fn insert_then_select_one_where_on_identity_returns_equal_record() {
    let shape = RecordShape::declare("Person", &person_fields()).unwrap();
    let mgr = open_in_memory_manager(&Vec::new());
    let mut handle = TableHandle::new(shape);

    let record = vec![
        SqlValue::Null,
        SqlValue::Text("Ada".to_owned()),
        SqlValue::Integer(36),
        SqlValue::Blob(vec![1, 2, 3]),
    ];
    let id = handle.insert(mgr.connection().unwrap(), &record).unwrap();

    let row = handle
        .select_one_where(
            mgr.connection().unwrap(),
            "rowid = ?",
            &vec![SqlValue::Integer(id)],
        )
        .unwrap();
    // equal in every non-identity field
    assert_eq!(&row[1..], &record[1..]);
    assert_eq!(row[0], SqlValue::Integer(id));
}

#[test]
fn select_one_where_no_match_is_not_found() {
    let shape = RecordShape::declare("Person", &person_fields()).unwrap();
    let mgr = open_in_memory_manager(&Vec::new());
    let mut handle = TableHandle::new(shape);
    let err = handle
        .select_one_where(mgr.connection().unwrap(), "rowid = ?", &vec![SqlValue::Integer(99)])
        .unwrap_err();
    assert_eq!(err, TurboError::NotFound);
}

#[test]
fn update_requires_populated_identity() {
    let shape = RecordShape::declare("Person", &person_fields()).unwrap();
    let mgr = open_in_memory_manager(&Vec::new());
    let mut handle = TableHandle::new(shape);

    let record = vec![
        SqlValue::Null,
        SqlValue::Text("Joe".to_owned()),
        SqlValue::Integer(21),
        SqlValue::Null,
    ];
    let id = handle.insert(mgr.connection().unwrap(), &record).unwrap();

    // no identity: rejected
    let err = handle.update(mgr.connection().unwrap(), &record).unwrap_err();
    assert_eq!(err, TurboError::MissingRowIdValue);

    // populated identity: the row changes
    let updated = vec![
        SqlValue::Integer(id),
        SqlValue::Text("Joe".to_owned()),
        SqlValue::Integer(22),
        SqlValue::Null,
    ];
    let n = handle.update(mgr.connection().unwrap(), &updated).unwrap();
    assert_eq!(n, 1);
    let row = handle
        .select_one_where(mgr.connection().unwrap(), "rowid = ?", &vec![SqlValue::Integer(id)])
        .unwrap();
    assert_eq!(row[2], SqlValue::Integer(22));
}

#[test]
fn select_where_with_explicit_order() {
    let shape = RecordShape::declare("Person", &person_fields()).unwrap();
    let mgr = open_in_memory_manager(&Vec::new());
    let mut handle = TableHandle::new(shape);
    for (name, age) in [("a", 30), ("b", 10), ("c", 20)] {
        let record = vec![
            SqlValue::Null,
            SqlValue::Text(name.to_owned()),
            SqlValue::Integer(age),
            SqlValue::Null,
        ];
        handle.insert(mgr.connection().unwrap(), &record).unwrap();
    }
    let rows = handle
        .select_where(
            mgr.connection().unwrap(),
            "age > ? ORDER BY age",
            &vec![SqlValue::Integer(15)],
        )
        .unwrap();
    assert_eq!(rows.len(), 2);
    assert_eq!(rows[0][2], SqlValue::Integer(20));
    assert_eq!(rows[1][2], SqlValue::Integer(30));
}

#[test]
fn declaration_without_rowid_is_rejected() {
    let fields = vec![field("name", FieldType::Text)];
    let err = RecordShape::declare("Person", &fields).unwrap_err();
    assert_eq!(err, TurboError::MissingRowId);
}

#[test]
fn unsigned_64_bit_field_is_rejected() {
    let fields = vec![field("rowid", FieldType::I64), field("total", FieldType::U64)];
    let err = RecordShape::declare("Person", &fields).unwrap_err();
    assert_eq!(err, TurboError::UnsupportedFieldType { field: "total".to_owned() });
}

#[test]
fn skipped_fields_stay_out_of_the_schema() {
    let mut fields = person_fields();
    fields.push(FieldSpec { name: "cache".to_owned(), ty: FieldType::Text, skip: true });
    let shape = RecordShape::declare("Person", &fields).unwrap();
    assert_eq!(shape.columns.len(), 4);
    assert!(shape.columns.iter().all(|c| c.name != "cache"));
}

#[test]
fn set_db_path_after_open_is_rejected() {
    let mut mgr = ConnectionManager::new();
    mgr.set_db_path(":memory:").unwrap();
    mgr.open(&Vec::new()).unwrap();
    let err = mgr.set_db_path("elsewhere.sqlite").unwrap_err();
    assert_eq!(err, TurboError::AlreadyOpen);
}

#[test]
fn registry_lookup_unknown_table_fails() {
    let registry = SchemaRegistry::new();
    let err = registry.lookup("nosuch").unwrap_err();
    assert_eq!(err, TurboError::UnknownTable { table: "nosuch".to_owned() });
}

#[test]
fn registry_register_replaces_same_name() {
    let mut registry = SchemaRegistry::new();
    let shape1 = RecordShape::declare("Person", &person_fields()).unwrap();
    let mut fields2 = person_fields();
    fields2.push(field("extra", FieldType::I32));
    let shape2 = RecordShape::declare("Person", &fields2).unwrap();
    registry.register(shape1);
    registry.register(shape2);
    let found = registry.lookup("person").unwrap();
    assert_eq!(found.columns.len(), 5);
}

#[test]
fn first_row_decides_not_found_and_first() {
    assert_eq!(first_row(vec![]).unwrap_err(), TurboError::NotFound);
    let rows = vec![
        vec![SqlValue::Integer(1)],
        vec![SqlValue::Integer(2)],
    ];
    assert_eq!(first_row(rows).unwrap(), vec![SqlValue::Integer(1)]);
}

#[test]
fn catalog_rows_join_into_the_schema_text() {
    let rows = vec![
        vec![SqlValue::Text("CREATE TABLE a (x)".to_owned())],
        vec![SqlValue::Text("CREATE TABLE b (y)".to_owned())],
    ];
    assert_eq!(
        schema_of_catalog(&rows).unwrap(),
        "CREATE TABLE a (x)\nCREATE TABLE b (y)"
    );
    let bad = vec![vec![SqlValue::Integer(7)]];
    assert!(matches!(schema_of_catalog(&bad).unwrap_err(), TurboError::Db { .. }));
}

#[test]
fn real_cells_round_trip_opaquely() {
    let v = SqlValue::Real(rusqlite::types::Value::Real(1.5));
    assert_eq!(v.dup(), v);

    let fields = vec![field("rowid", FieldType::I64), field("score", FieldType::F64)];
    let shape = RecordShape::declare("Metric", &fields).unwrap();
    let mgr = open_in_memory_manager(&Vec::new());
    let mut handle = TableHandle::new(shape);
    let record = vec![SqlValue::Null, SqlValue::Real(rusqlite::types::Value::Real(2.25))];
    let id = handle.insert(mgr.connection().unwrap(), &record).unwrap();
    let row = handle
        .select_one_where(mgr.connection().unwrap(), "rowid = ?", &vec![SqlValue::Integer(id)])
        .unwrap();
    assert_eq!(row[1], SqlValue::Real(rusqlite::types::Value::Real(2.25)));
}
