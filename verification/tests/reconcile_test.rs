use std::time::{SystemTime, UNIX_EPOCH};

use turbosql::connection::ConnectionManager;
use turbosql::error::TurboError;
use turbosql::migrate::reconcile;
use turbosql::validator::{migrations_to_schema, migrations_to_tempdb, validate_sql};

fn unique_db_path(tag: &str) -> String {
    let nanos = SystemTime::now().duration_since(UNIX_EPOCH).unwrap().as_nanos();
    format!("/tmp/turbosql_{}_{}.sqlite", tag, nanos)
}

fn applied_log(path: &str) -> Vec<String> {
    let conn = rusqlite::Connection::open(path).unwrap();
    let mut stmt = conn
        .prepare("SELECT migration FROM turbosql_migrations ORDER BY rowid")
        .unwrap();
    let rows = stmt
        .query_map([], |row| row.get::<_, String>(0))
        .unwrap()
        .map(|r| r.unwrap())
        .collect::<Vec<_>>();
    rows
}

const MIG_A: &str = "CREATE TABLE alpha (rowid INTEGER PRIMARY KEY, x TEXT)";
const MIG_B: &str = "CREATE TABLE beta (rowid INTEGER PRIMARY KEY, y TEXT)";
const MIG_C: &str = "CREATE TABLE gamma (rowid INTEGER PRIMARY KEY, z TEXT)";
const MIG_X: &str = "CREATE TABLE chi (rowid INTEGER PRIMARY KEY, w TEXT)";

fn strings(v: &[&str]) -> Vec<String> {
    v.iter().map(|s| s.to_string()).collect()
}

#[test]
fn reconcile_plans_the_pending_suffix() {
    let applied = strings(&[MIG_A]);
    let target = strings(&[MIG_A, MIG_B]);
    let plan = reconcile(&applied, &target).unwrap();
    assert_eq!(plan, strings(&[MIG_B]));
}

#[test]
fn reconcile_same_sequences_plans_nothing() {
    let target = strings(&[MIG_A, MIG_B]);
    let plan = reconcile(&target.clone(), &target).unwrap();
    assert_eq!(plan, Vec::<String>::new());
}

#[test]
fn reconcile_reports_drift_at_the_diverging_position() {
    let applied = strings(&[MIG_A, MIG_X]);
    let target = strings(&[MIG_A, MIG_B]);
    let err = reconcile(&applied, &target).unwrap_err();
    assert_eq!(
        err,
        TurboError::MigrationDrift {
            position: 1,
            applied_statement: MIG_X.to_string(),
            target_statement: MIG_B.to_string(),
        }
    );
}

#[test]
fn reconcile_rejects_an_applied_log_longer_than_the_target() {
    let applied = strings(&[MIG_A, MIG_B]);
    let target = strings(&[MIG_A]);
    let err = reconcile(&applied, &target).unwrap_err();
    assert_eq!(err, TurboError::UnknownMigrations { applied_count: 2, target_count: 1 });
}

#[test]
fn target_applied_to_empty_database_records_all_in_order() {
    let path = unique_db_path("fresh");
    let mut mgr = ConnectionManager::new();
    mgr.set_db_path(&path).unwrap();
    mgr.open(&strings(&[MIG_A, MIG_B])).unwrap();
    assert_eq!(applied_log(&path), strings(&[MIG_A, MIG_B]));
}

#[test]
fn appending_to_the_target_applies_only_the_new_entry() {
    let path = unique_db_path("append");
    let mut mgr1 = ConnectionManager::new();
    mgr1.set_db_path(&path).unwrap();
    mgr1.open(&strings(&[MIG_A, MIG_B])).unwrap();
    assert_eq!(applied_log(&path), strings(&[MIG_A, MIG_B]));
    drop(mgr1);

    let mut mgr2 = ConnectionManager::new();
    mgr2.set_db_path(&path).unwrap();
    mgr2.open(&strings(&[MIG_A, MIG_B, MIG_C])).unwrap();
    assert_eq!(applied_log(&path), strings(&[MIG_A, MIG_B, MIG_C]));
}

#[test]
fn rerunning_reconciliation_writes_nothing_the_second_time() {
    let path = unique_db_path("idem");
    let target = strings(&[MIG_A, MIG_B]);
    let mut mgr1 = ConnectionManager::new();
    mgr1.set_db_path(&path).unwrap();
    mgr1.open(&target).unwrap();
    let log_once = applied_log(&path);
    drop(mgr1);

    let mut mgr2 = ConnectionManager::new();
    mgr2.set_db_path(&path).unwrap();
    mgr2.open(&target).unwrap();
    assert_eq!(applied_log(&path), log_once);
}

#[test]
fn diverged_live_log_fails_fatally_and_writes_nothing() {
    let path = unique_db_path("drift");
    let mut mgr1 = ConnectionManager::new();
    mgr1.set_db_path(&path).unwrap();
    mgr1.open(&strings(&[MIG_A, MIG_X])).unwrap();
    drop(mgr1);

    let mut mgr2 = ConnectionManager::new();
    mgr2.set_db_path(&path).unwrap();
    let err = mgr2.open(&strings(&[MIG_A, MIG_B])).unwrap_err();
    assert_eq!(
        err,
        TurboError::MigrationDrift {
            position: 1,
            applied_statement: MIG_X.to_string(),
            target_statement: MIG_B.to_string(),
        }
    );
    assert_eq!(applied_log(&path), strings(&[MIG_A, MIG_X]));
}

#[test]
fn same_target_yields_byte_identical_schemas() {
    let target = strings(&[MIG_A, MIG_B, "CREATE INDEX alpha_x ON alpha(x)"]);
    let schema1 = migrations_to_schema(&target).unwrap();
    let schema2 = migrations_to_schema(&target).unwrap();
    assert_eq!(schema1, schema2);
    assert!(schema1.contains("CREATE TABLE alpha"));
    assert!(schema1.contains("CREATE TABLE beta"));
}

#[test]
fn scratch_replay_tolerates_statements_returning_rows() {
    let target = strings(&[MIG_A, "PRAGMA journal_mode=WAL"]);
    migrations_to_tempdb(&target).unwrap();
}

#[test]
fn failing_migration_reports_its_position_and_text() {
    let target = strings(&[MIG_A, "CREATE TABLE broken ("]);
    let err = migrations_to_tempdb(&target).unwrap_err();
    match err {
        TurboError::MigrationFailed { position, statement, .. } => {
            assert_eq!(position, 1);
            assert_eq!(statement, "CREATE TABLE broken (");
        }
        other => panic!("unexpected error: {:?}", other),
    }
}

#[test]
fn validate_sql_reports_counts_and_labels() {
    let target = strings(&[MIG_A]);
    let info = validate_sql("SELECT x FROM alpha WHERE rowid = ? AND x = ?", &target).unwrap();
    assert_eq!(info.parameter_count, 2);
    assert_eq!(info.column_names, vec!["x".to_string()]);
}

#[test]
fn validate_sql_rejects_malformed_statements_with_their_text() {
    let target = strings(&[MIG_A]);
    let err = validate_sql("SELECT nope FROM nowhere", &target).unwrap_err();
    match err {
        TurboError::SqlInvalid { sql, .. } => assert_eq!(sql, "SELECT nope FROM nowhere"),
        other => panic!("unexpected error: {:?}", other),
    }
}
