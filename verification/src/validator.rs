//! The scratch validator: a disposable, fully migrated in-memory database
//! used to type-check statements before they ever touch live data.

use vstd::prelude::*;

use crate::db::{
    exec_batch, exec_stmt, open_in_memory, prepare_info, query_rows, rows_to_texts,
    single_text_row, texts_of, DbError, SqlValue, StatementInfo,
};
use crate::error::TurboError;
use crate::strutil::{join_with, spec_join};

verus! {

/// What an engine failure reads as.
pub open spec fn spec_db_message(e: DbError) -> Seq<char> {
    match e {
        DbError::ReturnedResults => "statement returned result rows"@,
        DbError::Other { message } => message@,
    }
}

/// The human-readable message of an engine failure.
pub fn db_message(e: &DbError) -> (r: String)
    ensures
        r@ == spec_db_message(*e),
{
    match e {
        DbError::ReturnedResults => "statement returned result rows".to_owned(),
        DbError::Other { message } => message.clone(),
    }
}

/// Build the scratch database: fresh, in-memory, with the applied-log table
/// created and the entire target journal replayed into it, in order.
/// Statements that produce result rows (pragmas do) are tolerated, since the
/// journal may hold statements that already ran against the live database.
pub fn migrations_to_tempdb(migrations: &Vec<String>) -> (r: Result<
    rusqlite::Connection,
    TurboError,
>)
    ensures
        r matches Err(e) ==> match e {
            TurboError::MigrationFailed { position, statement, message } => {
                &&& position < migrations@.len()
                &&& statement@ == migrations@[position as int]@
            },
            TurboError::Db { .. } => true,
            _ => false,
        },
{
    let conn = match open_in_memory() {
        Ok(c) => c,
        Err(e) => {
            return Err(TurboError::Db { message: db_message(&e) });
        },
    };
    match exec_batch(
        &conn,
        "CREATE TABLE turbosql_migrations (rowid INTEGER PRIMARY KEY, migration TEXT NOT NULL);",
    ) {
        Ok(()) => {},
        Err(e) => {
            return Err(TurboError::Db { message: db_message(&e) });
        },
    }
    let no_params: Vec<SqlValue> = Vec::new();
    let mut i: usize = 0;
    while i < migrations.len()
        invariant
            i <= migrations@.len(),
        decreases migrations@.len() - i,
    {
        match exec_stmt(&conn, migrations[i].as_str(), &no_params) {
            Ok(_) => {},
            Err(DbError::ReturnedResults) => {},
            Err(e) => {
                return Err(
                    TurboError::MigrationFailed {
                        position: i,
                        statement: migrations[i].clone(),
                        message: db_message(&e),
                    },
                );
            },
        }
        i += 1;
    }
    Ok(conn)
}

/// Validate a statement against the fully migrated scratch database and
/// report what the prepared statement says of itself: its bound-parameter
/// count and its result column labels, in statement order.  A statement the
/// scratch database cannot prepare is reported with the offending text.
pub fn validate_sql(sql: &str, migrations: &Vec<String>) -> (r: Result<StatementInfo, TurboError>)
    ensures
        r matches Err(e) ==> match e {
            TurboError::SqlInvalid { sql: bad, message } => bad@ == sql@,
            TurboError::MigrationFailed { position, statement, message } => {
                &&& position < migrations@.len()
                &&& statement@ == migrations@[position as int]@
            },
            TurboError::Db { .. } => true,
            _ => false,
        },
{
    let tempdb = migrations_to_tempdb(migrations)?;
    match prepare_info(&tempdb, sql) {
        Ok(info) => Ok(info),
        Err(e) => Err(TurboError::SqlInvalid { sql: sql.to_owned(), message: db_message(&e) }),
    }
}

/// The schema a fetched catalog spells: every row must be a single stored
/// definition text; the texts are joined with newlines, in row order.
pub fn schema_of_catalog(rows: &Vec<Vec<SqlValue>>) -> (r: Result<String, TurboError>)
    ensures
        r is Ok <==> forall|i: int|
            0 <= i < rows@.len() ==> single_text_row((#[trigger] rows@[i])@),
        r matches Ok(s) ==> s@ == spec_join(texts_of(rows@), "\n"@),
        r matches Err(e) ==> e matches TurboError::Db { .. },
{
    let texts = rows_to_texts(rows)?;
    let joined = join_with(&texts, "\n");
    proof {
        assert(texts@.map_values(|s: String| s@) =~= texts_of(rows@));
    }
    Ok(joined)
}

/// The schema the journal produces: every table's stored definition text,
/// in the engine's catalog order (sorted by that text), joined with
/// newlines.  Computed by replaying the whole journal into a scratch
/// database and reading its catalog, which [`schema_of_catalog`] joins.
pub fn migrations_to_schema(migrations: &Vec<String>) -> (r: Result<String, TurboError>)
    ensures
        r matches Err(e) ==> match e {
            TurboError::MigrationFailed { position, statement, message } => {
                &&& position < migrations@.len()
                &&& statement@ == migrations@[position as int]@
            },
            TurboError::Db { .. } => true,
            _ => false,
        },
{
    let tempdb = migrations_to_tempdb(migrations)?;
    let no_params: Vec<SqlValue> = Vec::new();
    let rows = match query_rows(
        &tempdb,
        "SELECT sql FROM sqlite_master WHERE type='table' ORDER BY sql",
        &no_params,
    ) {
        Ok(rows) => rows,
        Err(e) => {
            return Err(TurboError::Db { message: db_message(&e) });
        },
    };
    schema_of_catalog(&rows)
}

} // verus!
