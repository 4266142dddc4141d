//! The trusted boundary to the embedded relational engine.
//!
//! Everything the engine computes enters the library through the wrappers in
//! this module; each one's contract is what the engine's documentation
//! plainly promises, no more.  Runtime values cross the boundary as
//! [`SqlValue`], a plain mirror of the engine's five storage classes.

use vstd::prelude::*;

use crate::error::TurboError;

verus! {

/// The engine's connection handle, opaque to the verifier.
#[verifier::external_type_specification]
#[verifier::external_body]
pub struct ExConnection(rusqlite::Connection);

/// The engine's error type, opaque to the verifier.
#[verifier::external_type_specification]
#[verifier::external_body]
pub struct ExRusqliteError(rusqlite::Error);

/// The engine's owned cell value, opaque to the verifier.
#[verifier::external_type_specification]
#[verifier::external_body]
pub struct ExEngineValue(rusqlite::types::Value);

/// A runtime cell value: one of the engine's five storage classes.  A
/// real-valued cell is carried through opaquely as the engine's own value,
/// since the library holds no floating point of its own; the other four
/// classes are plain values.
#[derive(Debug, Clone, PartialEq)]
pub enum SqlValue {
    Null,
    Integer(i64),
    Real(rusqlite::types::Value),
    Text(String),
    Blob(Vec<u8>),
}

/// The mathematical model of a cell value.
pub enum ValueModel {
    Null,
    Integer(i64),
    Real(rusqlite::types::Value),
    Text(Seq<char>),
    Blob(Seq<u8>),
}

impl View for SqlValue {
    type V = ValueModel;

    open spec fn view(&self) -> ValueModel {
        match self {
            SqlValue::Null => ValueModel::Null,
            SqlValue::Integer(i) => ValueModel::Integer(*i),
            SqlValue::Real(v) => ValueModel::Real(*v),
            SqlValue::Text(s) => ValueModel::Text(s@),
            SqlValue::Blob(b) => ValueModel::Blob(b@),
        }
    }
}

/// The model of one row: its cells' models, in column order.
pub open spec fn row_model(r: Seq<SqlValue>) -> Seq<ValueModel> {
    r.map_values(|v: SqlValue| v@)
}

/// A fetched row that holds exactly one text cell — the shape the
/// applied-log and catalog queries produce.
pub open spec fn single_text_row(row: Seq<SqlValue>) -> bool {
    row.len() == 1 && row[0]@ is Text
}

/// The text of such a row's one cell.
pub open spec fn row_text(row: Seq<SqlValue>) -> Seq<char> {
    row[0]@->Text_0
}

/// The texts of a whole result set of such rows, in row order.
pub open spec fn texts_of(rows: Seq<Vec<SqlValue>>) -> Seq<Seq<char>> {
    rows.map_values(|row: Vec<SqlValue>| row_text(row@))
}

/// The single text cell of every fetched row, in row order.  A row of any
/// other shape means the query was not the expected single-text-column one,
/// which is a storage failure.
pub fn rows_to_texts(rows: &Vec<Vec<SqlValue>>) -> (r: Result<Vec<String>, TurboError>)
    ensures
        r is Ok <==> forall|i: int|
            0 <= i < rows@.len() ==> single_text_row((#[trigger] rows@[i])@),
        r matches Ok(texts) ==> {
            &&& texts@.len() == rows@.len()
            &&& forall|i: int|
                0 <= i < rows@.len() ==> (#[trigger] texts@[i])@ == row_text(rows@[i]@)
        },
        r matches Err(e) ==> e matches TurboError::Db { .. },
{
    let mut texts: Vec<String> = Vec::new();
    let mut i: usize = 0;
    while i < rows.len()
        invariant
            i <= rows@.len(),
            texts@.len() == i,
            forall|j: int| 0 <= j < i ==> single_text_row((#[trigger] rows@[j])@),
            forall|j: int| 0 <= j < i ==> (#[trigger] texts@[j])@ == row_text(rows@[j]@),
        decreases rows@.len() - i,
    {
        let row = &rows[i];
        if row.len() != 1 {
            proof {
                assert(!single_text_row(rows@[i as int]@));
            }
            return Err(TurboError::Db { message: "unexpected row shape".to_owned() });
        }
        match &row[0] {
            SqlValue::Text(s) => texts.push(s.clone()),
            _ => {
                proof {
                    assert(!single_text_row(rows@[i as int]@));
                }
                return Err(TurboError::Db { message: "unexpected row value".to_owned() });
            },
        }
        i += 1;
    }
    Ok(texts)
}

impl SqlValue {
    /// A copy of the value, equal to the original.
    pub fn dup(&self) -> (r: SqlValue)
        ensures
            r@ == self@,
    {
        match self {
            SqlValue::Null => SqlValue::Null,
            SqlValue::Integer(i) => SqlValue::Integer(*i),
            SqlValue::Real(v) => SqlValue::Real(v.clone()),
            SqlValue::Text(s) => SqlValue::Text(s.clone()),
            SqlValue::Blob(b) => SqlValue::Blob(clone_bytes(b)),
        }
    }
}

/// Relies on the derived `Clone` of `rusqlite::types::Value`, which rebuilds
/// the value field for field: the copy equals the original.
pub assume_specification[ <rusqlite::types::Value as Clone>::clone ](
    v: &rusqlite::types::Value,
) -> (r: rusqlite::types::Value)
    ensures
        r == *v,
;

/// A byte-for-byte copy of a byte vector.
pub fn clone_bytes(b: &Vec<u8>) -> (r: Vec<u8>)
    ensures
        r@ == b@,
{
    let mut r: Vec<u8> = Vec::new();
    let mut i: usize = 0;
    while i < b.len()
        invariant
            i <= b@.len(),
            r@ =~= b@.take(i as int),
        decreases b@.len() - i,
    {
        r.push(b[i]);
        proof {
            assert(r@ =~= b@.take(i as int + 1));
        }
        i += 1;
    }
    proof {
        assert(b@.take(b@.len() as int) =~= b@);
    }
    r
}

/// An engine failure.  The one variant the library's logic reacts to is
/// told apart from the rest, which keeps only its message.
#[derive(Debug, Clone, PartialEq, Eq)]
pub enum DbError {
    /// A statement run for its side effect produced result rows (pragmas do
    /// this; reconciliation tolerates it).
    ReturnedResults,
    /// Any other engine failure, with its message.
    Other { message: String },
}

/// What a prepared statement reports about itself: how many parameters it
/// binds and which result columns it produces, in statement order.
#[derive(Debug, Clone)]
pub struct StatementInfo {
    pub parameter_count: usize,
    pub column_names: Vec<String>,
}

/// Relies on `rusqlite::Error` only to tell the one variant the library's
/// logic reacts to apart from the rest.
#[verifier::external_body]
fn db_error_of(e: rusqlite::Error) -> DbError {
    match e {
        rusqlite::Error::ExecuteReturnedResults => DbError::ReturnedResults,
        other => DbError::Other { message: format!("{}", other) },
    }
}

/// Relies on `rusqlite::types::Value`: the engine's five storage classes map
/// one-for-one onto the library's runtime values; a real-valued cell passes
/// through as the engine value it already is.
#[verifier::external_body]
fn value_to_engine(v: &SqlValue) -> rusqlite::types::Value {
    match v {
        SqlValue::Null => rusqlite::types::Value::Null,
        SqlValue::Integer(i) => rusqlite::types::Value::Integer(*i),
        SqlValue::Real(ev) => ev.clone(),
        SqlValue::Text(s) => rusqlite::types::Value::Text(s.clone()),
        SqlValue::Blob(b) => rusqlite::types::Value::Blob(b.clone()),
    }
}

/// Relies on `rusqlite::types::Value`: the reverse mapping, variant for
/// variant; a real-valued cell is carried out opaquely.
#[verifier::external_body]
fn value_from_engine(v: rusqlite::types::Value) -> SqlValue {
    match v {
        rusqlite::types::Value::Null => SqlValue::Null,
        rusqlite::types::Value::Integer(i) => SqlValue::Integer(i),
        rusqlite::types::Value::Real(x) => SqlValue::Real(rusqlite::types::Value::Real(x)),
        rusqlite::types::Value::Text(s) => SqlValue::Text(s),
        rusqlite::types::Value::Blob(b) => SqlValue::Blob(b),
    }
}

/// Relies on `rusqlite::Connection::open`: opens (creating it if absent) the
/// database file at the given path; the engine treats `:memory:` as a
/// private in-memory database.  Whether this succeeds depends on the file
/// system, so nothing is promised of the outcome.
#[verifier::external_body]
pub fn open_path(path: &str) -> (r: Result<rusqlite::Connection, DbError>) {
    match rusqlite::Connection::open(path) {
        Ok(c) => Ok(c),
        Err(e) => Err(db_error_of(e)),
    }
}

/// Relies on `rusqlite::Connection::open_in_memory`: a fresh, private,
/// non-persisted database.
#[verifier::external_body]
pub fn open_in_memory() -> (r: Result<rusqlite::Connection, DbError>) {
    match rusqlite::Connection::open_in_memory() {
        Ok(c) => Ok(c),
        Err(e) => Err(db_error_of(e)),
    }
}

/// Relies on `rusqlite::Connection::execute_batch`: runs each statement of
/// the batch in order, stopping at the first failure.
#[verifier::external_body]
pub fn exec_batch(conn: &rusqlite::Connection, sql: &str) -> (r: Result<(), DbError>) {
    match conn.execute_batch(sql) {
        Ok(()) => Ok(()),
        Err(e) => Err(db_error_of(e)),
    }
}

/// Relies on `rusqlite::Connection::execute`: prepares and runs one
/// statement with the given bound parameters and returns how many rows it
/// changed; a statement that comes back with a result row fails with
/// `ReturnedResults`.
#[verifier::external_body]
pub fn exec_stmt(conn: &rusqlite::Connection, sql: &str, params: &Vec<SqlValue>) -> (r: Result<
    usize,
    DbError,
>) {
    match conn.execute(sql, rusqlite::params_from_iter(params.iter().map(value_to_engine))) {
        Ok(n) => Ok(n),
        Err(e) => Err(db_error_of(e)),
    }
}

/// Relies on `rusqlite::Connection::prepare`, `Statement::parameter_count`
/// and `Statement::column_names`: compiles the statement against the
/// connection's current schema, without running it, and reports how many
/// parameters it binds and which result columns it produces, in statement
/// order.
#[verifier::external_body]
pub fn prepare_info(conn: &rusqlite::Connection, sql: &str) -> (r: Result<StatementInfo, DbError>) {
    match conn.prepare(sql) {
        Ok(stmt) => Ok(
            StatementInfo {
                parameter_count: stmt.parameter_count(),
                column_names: stmt.column_names().iter().map(|s| s.to_string()).collect(),
            },
        ),
        Err(e) => Err(db_error_of(e)),
    }
}

/// Relies on `rusqlite::Connection::prepare`, `Statement::query` and
/// `Row::get`: runs the statement with the given bound parameters and hands
/// every result row back as plain cell values, rows and cells in the order
/// the engine produced them.
#[verifier::external_body]
pub fn query_rows(conn: &rusqlite::Connection, sql: &str, params: &Vec<SqlValue>) -> (r: Result<
    Vec<Vec<SqlValue>>,
    DbError,
>) {
    let mut stmt = conn.prepare(sql).map_err(db_error_of)?;
    let cols = stmt.column_count();
    let mut rows = stmt.query(rusqlite::params_from_iter(params.iter().map(value_to_engine)))
        .map_err(db_error_of)?;
    let mut out: Vec<Vec<SqlValue>> = Vec::new();
    while let Some(row) = rows.next().map_err(db_error_of)? {
        let mut vals: Vec<SqlValue> = Vec::new();
        for i in 0..cols {
            vals.push(value_from_engine(row.get(i).map_err(db_error_of)?));
        }
        out.push(vals);
    }
    Ok(out)
}

/// Relies on `rusqlite::Connection::last_insert_rowid`: the row id of the
/// most recent successful insert on this connection.
#[verifier::external_body]
pub fn last_insert_rowid(conn: &rusqlite::Connection) -> i64 {
    conn.last_insert_rowid()
}

} // verus!
