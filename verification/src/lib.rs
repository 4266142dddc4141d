//! A build-time-validated persistence layer over an embedded SQLite database.
//!
//! Declared record shapes are registered in a schema registry, from which
//! create/insert/select/update statements are derived.  An append-only
//! migration journal is reconciled against the live database's applied log,
//! and ad-hoc query fragments are validated against a disposable, fully
//! migrated scratch database before they ever touch live data.

pub mod compiler;
pub mod connection;
pub mod db;
pub mod error;
pub mod fts;
pub mod mapper;
pub mod migrate;
pub mod registry;
pub mod schema;
pub mod strutil;
pub mod validator;

use vstd::prelude::*;

use crate::compiler::{
    compile_query, spec_explicit_members, ResultShape, StatementKind,
};
use crate::connection::ConnectionManager;
use crate::db::{exec_stmt, query_rows, SqlValue};
use crate::error::TurboError;
use crate::registry::SchemaRegistry;
use crate::validator::db_message;

verus! {

/// What a select hands back: the shape its rows cast into, and the rows
/// themselves, cells in statement order.
#[derive(Debug)]
pub struct SelectOutcome {
    pub shape: ResultShape,
    pub rows: Vec<Vec<SqlValue>>,
}

/// Compile, validate and run a statement for effect against the live
/// database.  Returns how many rows the statement changed.  A
/// bound-parameter count that disagrees with what the validator discovered
/// is rejected before the statement reaches live data.
pub fn execute(
    mgr: &ConnectionManager,
    registry: &SchemaRegistry,
    migrations: &Vec<String>,
    fragment: &str,
    params: &Vec<SqlValue>,
) -> (r: Result<usize, TurboError>)
    requires
        registry.wf(),
    ensures
        r matches Err(e) ==> match e {
            TurboError::ParamCountMismatch { expected, got, sql } => got == params@.len()
                && expected != got,
            TurboError::InvalidTypeTag { column, tag } => (spec_explicit_members(
                fragment@,
            ) matches Err((w, t)) && column@ == w && tag@ == t),
            _ => true,
        },
        spec_explicit_members(fragment@) matches Err((w, t)) ==> (r matches Err(e)
            && e matches TurboError::InvalidTypeTag { column, tag } && column@ == w && tag@ == t),
{
    let cq = compile_query(
        StatementKind::Execute,
        None,
        fragment,
        params.len(),
        registry,
        migrations,
    )?;
    let conn = mgr.connection()?;
    match exec_stmt(conn, cq.sql.as_str(), params) {
        Ok(n) => Ok(n),
        Err(e) => Err(TurboError::Db { message: db_message(&e) }),
    }
}

/// Compile, validate and run a select against the live database.  The
/// fragment stands behind a generated `SELECT`; when it names a result type
/// and declares no inline typed columns, the registered shape's full select
/// is generated around it instead.  A bound-parameter count that disagrees
/// with what the validator discovered is rejected before the statement
/// reaches live data.
pub fn select(
    mgr: &ConnectionManager,
    registry: &SchemaRegistry,
    migrations: &Vec<String>,
    result_table: Option<&String>,
    fragment: &str,
    params: &Vec<SqlValue>,
) -> (r: Result<SelectOutcome, TurboError>)
    requires
        registry.wf(),
    ensures
        r matches Err(e) ==> match e {
            TurboError::ParamCountMismatch { expected, got, sql } => got == params@.len()
                && expected != got,
            TurboError::InvalidTypeTag { column, tag } => (spec_explicit_members(
                fragment@,
            ) matches Err((w, t)) && column@ == w && tag@ == t),
            _ => true,
        },
        spec_explicit_members(fragment@) matches Err((w, t)) ==> (r matches Err(e)
            && e matches TurboError::InvalidTypeTag { column, tag } && column@ == w && tag@ == t),
        r matches Ok(out) ==> match spec_explicit_members(fragment@) {
            Ok(ms) => {
                if ms.len() > 0 {
                    out.shape matches ResultShape::Inline(cols)
                        && crate::compiler::result_columns_view(cols@) =~= ms
                } else {
                    out.shape is Named && result_table is Some
                }
            },
            Err(_) => false,
        },
{
    let cq = compile_query(
        StatementKind::Select,
        result_table,
        fragment,
        params.len(),
        registry,
        migrations,
    )?;
    let conn = mgr.connection()?;
    match query_rows(conn, cq.sql.as_str(), params) {
        Ok(rows) => Ok(SelectOutcome { shape: cq.shape, rows }),
        Err(e) => Err(TurboError::Db { message: db_message(&e) }),
    }
}

/// Compile, validate and run a common-table-expression select, passed
/// through whole (no `SELECT` is prepended).  Its result shape must come
/// from inline typed columns.
pub fn select_cte(
    mgr: &ConnectionManager,
    registry: &SchemaRegistry,
    migrations: &Vec<String>,
    fragment: &str,
    params: &Vec<SqlValue>,
) -> (r: Result<SelectOutcome, TurboError>)
    requires
        registry.wf(),
    ensures
        r matches Err(e) ==> match e {
            TurboError::ParamCountMismatch { expected, got, sql } => got == params@.len()
                && expected != got,
            TurboError::InvalidTypeTag { column, tag } => (spec_explicit_members(
                fragment@,
            ) matches Err((w, t)) && column@ == w && tag@ == t),
            _ => true,
        },
        spec_explicit_members(fragment@) matches Err((w, t)) ==> (r matches Err(e)
            && e matches TurboError::InvalidTypeTag { column, tag } && column@ == w && tag@ == t),
        r matches Ok(out) ==> match spec_explicit_members(fragment@) {
            Ok(ms) => ms.len() > 0 && (out.shape matches ResultShape::Inline(cols)
                && crate::compiler::result_columns_view(cols@) =~= ms),
            Err(_) => false,
        },
{
    let cq = compile_query(
        StatementKind::SelectCte,
        None,
        fragment,
        params.len(),
        registry,
        migrations,
    )?;
    let conn = mgr.connection()?;
    match query_rows(conn, cq.sql.as_str(), params) {
        Ok(rows) => Ok(SelectOutcome { shape: cq.shape, rows }),
        Err(e) => Err(TurboError::Db { message: db_message(&e) }),
    }
}

} // verus!
