//! The connection manager: owns the single live database handle.  Opening
//! is explicit and idempotent; the database path can only be set before the
//! connection exists.  On open, the engine's pragmas are applied, the
//! applied-migrations log is read, and the target journal is reconciled
//! against it before anything else runs.

use vstd::prelude::*;

use crate::db::{exec_batch, exec_stmt, open_path, query_rows, rows_to_texts, DbError, SqlValue};
use crate::error::TurboError;
use crate::migrate::reconcile;
use crate::validator::db_message;

verus! {

/// The owner of the live connection.  All statement execution against live
/// data goes through the handle this holds; exclusive access comes from
/// Rust's borrow rules (callers needing sharing wrap the manager in their
/// own lock).
pub struct ConnectionManager {
    pub path: String,
    pub opened: bool,
    pub conn: Option<rusqlite::Connection>,
}

impl ConnectionManager {
    /// The live connection exists.
    pub open spec fn is_open(self) -> bool {
        self.opened && self.conn is Some
    }

    /// A manager with the default database file name and no connection yet.
    pub fn new() -> (r: ConnectionManager)
        ensures
            !r.opened,
            r.conn is None,
            r.path@ == "turbosql.sqlite"@,
    {
        ConnectionManager { path: "turbosql.sqlite".to_owned(), opened: false, conn: None }
    }

    /// Set the path of the database file.  Setting it after the connection
    /// has been opened is a usage error and changes nothing.
    pub fn set_db_path(&mut self, path: &str) -> (r: Result<(), TurboError>)
        ensures
            r is Ok <==> !old(self).opened,
            old(self).opened ==> (r matches Err(TurboError::AlreadyOpen) && *final(self) == *old(
                self,
            )),
            !old(self).opened ==> {
                &&& final(self).path@ == path@
                &&& final(self).opened == old(self).opened
                &&& final(self).conn == old(self).conn
            },
    {
        if self.opened {
            return Err(TurboError::AlreadyOpen);
        }
        self.path = path.to_owned();
        Ok(())
    }

    /// Open the live database at the configured path and bring it up to
    /// date: apply the engine pragmas, create the applied-migrations log if
    /// it does not exist yet, reconcile the log against the target journal,
    /// and apply every pending entry in order, recording each immediately
    /// after it succeeds (a crash mid-way leaves a consistent prefix).
    /// Statements that produce result rows (pragmas) are tolerated, as in
    /// the scratch replay.  Opening an already-open manager is a no-op.
    pub fn open(&mut self, target: &Vec<String>) -> (r: Result<(), TurboError>)
        ensures
            old(self).is_open() ==> r is Ok && *final(self) == *old(self),
            r is Ok ==> final(self).is_open() && final(self).path@ == old(self).path@,
            r is Err ==> *final(self) == *old(self),
            r matches Err(e) ==> match e {
                TurboError::Db { .. } => true,
                TurboError::MigrationDrift { .. } => true,
                TurboError::UnknownMigrations { .. } => true,
                TurboError::MigrationFailed { .. } => true,
                _ => false,
            },
    {
        if self.opened && self.conn.is_some() {
            return Ok(());
        }
        let conn = match open_path(self.path.as_str()) {
            Ok(c) => c,
            Err(e) => {
                return Err(TurboError::Db { message: db_message(&e) });
            },
        };
        match exec_batch(
            &conn,
            "PRAGMA auto_vacuum=INCREMENTAL; PRAGMA journal_mode=WAL; PRAGMA wal_autocheckpoint=8000; PRAGMA synchronous=NORMAL;",
        ) {
            Ok(()) => {},
            Err(e) => {
                return Err(TurboError::Db { message: db_message(&e) });
            },
        }
        let no_params: Vec<SqlValue> = Vec::new();
        let log_table = match query_rows(
            &conn,
            "SELECT sql FROM sqlite_master WHERE name = 'turbosql_migrations'",
            &no_params,
        ) {
            Ok(rows) => rows,
            Err(e) => {
                return Err(TurboError::Db { message: db_message(&e) });
            },
        };
        if log_table.len() == 0 {
            match exec_batch(
                &conn,
                "CREATE TABLE turbosql_migrations (rowid INTEGER PRIMARY KEY, migration TEXT NOT NULL)",
            ) {
                Ok(()) => {},
                Err(e) => {
                    return Err(TurboError::Db { message: db_message(&e) });
                },
            }
        }
        let applied = read_applied_log(&conn)?;
        let plan = reconcile(&applied, target)?;
        let target_len = target.len();
        proof {
            assert(crate::migrate::text_views(plan@).len() == plan@.len());
            assert(crate::migrate::text_views(applied@).len() == applied@.len());
            assert(crate::migrate::text_views(target@).len() == target@.len());
            assert(applied@.len() + plan@.len() == target_len);
        }
        apply_plan(&conn, &plan, applied.len())?;
        self.conn = Some(conn);
        self.opened = true;
        Ok(())
    }

    /// The live connection, for running validated statements.
    pub fn connection(&self) -> (r: Result<&rusqlite::Connection, TurboError>)
        ensures
            r is Ok <==> self.conn is Some,
            r is Err ==> r matches Err(TurboError::NotOpen),
    {
        match &self.conn {
            Some(c) => Ok(c),
            None => Err(TurboError::NotOpen),
        }
    }
}

/// The applied-migrations log, in application (row id) order.  Each fetched
/// row must be a single text cell; [`rows_to_texts`]'s contract pins the
/// conversion, so what reconciliation sees is exactly what the engine
/// handed back.
fn read_applied_log(conn: &rusqlite::Connection) -> (r: Result<Vec<String>, TurboError>)
    ensures
        r matches Err(e) ==> e matches TurboError::Db { .. },
{
    let no_params: Vec<SqlValue> = Vec::new();
    let rows = match query_rows(
        conn,
        "SELECT migration FROM turbosql_migrations ORDER BY rowid",
        &no_params,
    ) {
        Ok(rows) => rows,
        Err(e) => {
            return Err(TurboError::Db { message: db_message(&e) });
        },
    };
    rows_to_texts(&rows)
}

/// Apply the pending migration statements in order against the live
/// connection, appending each to the applied log immediately after it
/// succeeds.  `base` is how many entries the log already held, so a failure
/// reports its absolute position in the target sequence.
fn apply_plan(conn: &rusqlite::Connection, plan: &Vec<String>, base: usize) -> (r: Result<
    (),
    TurboError,
>)
    requires
        base + plan@.len() <= usize::MAX,
    ensures
        r matches Err(e) ==> match e {
            TurboError::MigrationFailed { position, statement, message } => {
                &&& base <= position < base + plan@.len()
                &&& statement@ == plan@[position - base]@
            },
            TurboError::Db { .. } => true,
            _ => false,
        },
{
    let no_params: Vec<SqlValue> = Vec::new();
    let mut i: usize = 0;
    while i < plan.len()
        invariant
            i <= plan@.len(),
            base + plan@.len() <= usize::MAX,
        decreases plan@.len() - i,
    {
        match exec_stmt(conn, plan[i].as_str(), &no_params) {
            Ok(_) => {},
            Err(DbError::ReturnedResults) => {},
            Err(e) => {
                return Err(
                    TurboError::MigrationFailed {
                        position: base + i,
                        statement: plan[i].clone(),
                        message: db_message(&e),
                    },
                );
            },
        }
        let mut record_params: Vec<SqlValue> = Vec::new();
        record_params.push(SqlValue::Text(plan[i].clone()));
        match exec_stmt(
            conn,
            "INSERT INTO turbosql_migrations(migration) VALUES(?)",
            &record_params,
        ) {
            Ok(_) => {},
            Err(e) => {
                return Err(TurboError::Db { message: db_message(&e) });
            },
        }
        i += 1;
    }
    Ok(())
}

} // verus!
