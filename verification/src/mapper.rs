//! The record mapper: for a registered record shape, the generated
//! create-table, insert, select and update operations, with the statement
//! text derived from the shape's column list.

use vstd::prelude::*;
use vstd::string::*;

use crate::db::{exec_stmt, last_insert_rowid, query_rows, row_model, SqlValue};
use crate::error::TurboError;
use crate::registry::RecordShape;
use crate::schema::{columns_view, Column, SqlType};
use crate::strutil::{join_with, spec_join};
use crate::validator::db_message;

verus! {

/// The storage-class text a column is declared with.
pub open spec fn spec_type_decl(t: SqlType) -> Seq<char> {
    match t {
        SqlType::RowId => "INTEGER PRIMARY KEY"@,
        SqlType::Integer => "INTEGER"@,
        SqlType::Real => "REAL"@,
        SqlType::Text => "TEXT"@,
        SqlType::Blob => "BLOB"@,
        SqlType::Boolean => "BOOLEAN"@,
    }
}

/// The storage-class text a column is declared with.
pub fn type_decl(t: SqlType) -> (r: &'static str)
    ensures
        r@ == spec_type_decl(t),
{
    match t {
        SqlType::RowId => "INTEGER PRIMARY KEY",
        SqlType::Integer => "INTEGER",
        SqlType::Real => "REAL",
        SqlType::Text => "TEXT",
        SqlType::Blob => "BLOB",
        SqlType::Boolean => "BOOLEAN",
    }
}

/// One column's declaration inside a create-table statement.
pub open spec fn spec_col_decl(c: (Seq<char>, SqlType)) -> Seq<char> {
    c.0 + " "@ + spec_type_decl(c.1)
}

/// The names of the given columns.
pub open spec fn spec_col_names(cols: Seq<(Seq<char>, SqlType)>) -> Seq<Seq<char>> {
    cols.map_values(|c: (Seq<char>, SqlType)| c.0)
}

/// The idempotent create-table statement of a shape: every column with its
/// storage class, the row-identity column first as the primary key alias.
pub open spec fn spec_create_sql(name: Seq<char>, cols: Seq<(Seq<char>, SqlType)>) -> Seq<char> {
    "CREATE TABLE IF NOT EXISTS "@ + name + " ("@ + spec_join(
        cols.map_values(|c: (Seq<char>, SqlType)| spec_col_decl(c)),
        ", "@,
    ) + ")"@
}

/// The base select of a shape: every column, in shape order.
pub open spec fn spec_select_sql(name: Seq<char>, cols: Seq<(Seq<char>, SqlType)>) -> Seq<char> {
    "SELECT "@ + spec_join(spec_col_names(cols), ", "@) + " FROM "@ + name
}

/// One `?` placeholder for each of `n` bound parameters.
pub open spec fn spec_placeholders(n: int) -> Seq<Seq<char>> {
    Seq::new(n as nat, |i: int| "?"@)
}

/// The insert statement of a shape: every column but the row identity, in
/// shape order, each bound to a placeholder.  The identity is never
/// supplied; the engine assigns it.
pub open spec fn spec_insert_sql(name: Seq<char>, cols: Seq<(Seq<char>, SqlType)>) -> Seq<char> {
    "INSERT INTO "@ + name + " ("@ + spec_join(spec_col_names(cols).skip(1), ", "@) + ") VALUES ("@
        + spec_join(spec_placeholders(cols.len() - 1), ", "@) + ")"@
}

/// The update statement of a shape: every non-identity column set from a
/// placeholder, keyed on the row identity.
pub open spec fn spec_update_sql(name: Seq<char>, cols: Seq<(Seq<char>, SqlType)>) -> Seq<char> {
    "UPDATE "@ + name + " SET "@ + spec_join(
        spec_col_names(cols).skip(1).map_values(|n: Seq<char>| n + " = ?"@),
        ", "@,
    ) + " WHERE rowid = ?"@
}

/// The names of a shape's columns, from the given position on.
fn col_names_from(cols: &Vec<Column>, start: usize) -> (r: Vec<String>)
    requires
        start <= cols@.len(),
    ensures
        r@.map_values(|s: String| s@) =~= spec_col_names(columns_view(cols@)).skip(start as int),
{
    let mut names: Vec<String> = Vec::new();
    let mut i: usize = start;
    while i < cols.len()
        invariant
            start <= i <= cols@.len(),
            names@.len() == i - start,
            forall|j: int|
                0 <= j < names@.len() ==> (#[trigger] names@[j])@ == cols@[start + j].name@,
        decreases cols@.len() - i,
    {
        names.push(cols[i].name.clone());
        i += 1;
    }
    proof {
        assert(names@.map_values(|s: String| s@) =~= spec_col_names(
            columns_view(cols@),
        ).skip(start as int));
    }
    names
}

impl RecordShape {
    /// The create-table statement of this shape.
    pub fn create_table_sql(&self) -> (r: String)
        ensures
            r@ == spec_create_sql(self.table_name@, columns_view(self.columns@)),
    {
        let mut decls: Vec<String> = Vec::new();
        let mut i: usize = 0;
        while i < self.columns.len()
            invariant
                i <= self.columns@.len(),
                decls@.len() == i,
                forall|j: int|
                    0 <= j < decls@.len() ==> (#[trigger] decls@[j])@ == self.columns@[j].name@
                        + " "@ + spec_type_decl(self.columns@[j].ty),
            decreases self.columns@.len() - i,
        {
            let mut d = self.columns[i].name.clone();
            d.append(" ");
            d.append(type_decl(self.columns[i].ty));
            decls.push(d);
            i += 1;
        }
        proof {
            assert(decls@.map_values(|s: String| s@) =~= columns_view(self.columns@).map_values(
                |c: (Seq<char>, SqlType)| spec_col_decl(c),
            ));
        }
        let mut r: String = "CREATE TABLE IF NOT EXISTS ".to_owned();
        r.append(self.table_name.as_str());
        r.append(" (");
        r.append(join_with(&decls, ", ").as_str());
        r.append(")");
        r
    }

    /// The base select statement of this shape.
    pub fn select_sql(&self) -> (r: String)
        ensures
            r@ == spec_select_sql(self.table_name@, columns_view(self.columns@)),
    {
        let names = col_names_from(&self.columns, 0);
        proof {
            assert(spec_col_names(columns_view(self.columns@)).skip(0) =~= spec_col_names(
                columns_view(self.columns@),
            ));
        }
        let mut r: String = "SELECT ".to_owned();
        r.append(join_with(&names, ", ").as_str());
        r.append(" FROM ");
        r.append(self.table_name.as_str());
        r
    }

    /// The insert statement of this shape.
    pub fn insert_sql(&self) -> (r: String)
        requires
            self.wf(),
        ensures
            r@ == spec_insert_sql(self.table_name@, columns_view(self.columns@)),
    {
        let names = col_names_from(&self.columns, 1);
        let mut marks: Vec<String> = Vec::new();
        let mut i: usize = 1;
        while i < self.columns.len()
            invariant
                self.wf(),
                1 <= i <= self.columns@.len(),
                marks@.len() == i - 1,
                forall|j: int| 0 <= j < marks@.len() ==> (#[trigger] marks@[j])@ == "?"@,
            decreases self.columns@.len() - i,
        {
            marks.push("?".to_owned());
            i += 1;
        }
        proof {
            assert(marks@.map_values(|s: String| s@) =~= spec_placeholders(
                self.columns@.len() - 1,
            ));
        }
        let mut r: String = "INSERT INTO ".to_owned();
        r.append(self.table_name.as_str());
        r.append(" (");
        r.append(join_with(&names, ", ").as_str());
        r.append(") VALUES (");
        r.append(join_with(&marks, ", ").as_str());
        r.append(")");
        r
    }

    /// The update statement of this shape.
    pub fn update_sql(&self) -> (r: String)
        requires
            self.wf(),
        ensures
            r@ == spec_update_sql(self.table_name@, columns_view(self.columns@)),
    {
        let names = col_names_from(&self.columns, 1);
        let mut sets: Vec<String> = Vec::new();
        let mut i: usize = 0;
        while i < names.len()
            invariant
                i <= names@.len(),
                sets@.len() == i,
                forall|j: int|
                    0 <= j < sets@.len() ==> (#[trigger] sets@[j])@ == names@[j]@ + " = ?"@,
            decreases names@.len() - i,
        {
            let mut s = names[i].clone();
            s.append(" = ?");
            sets.push(s);
            i += 1;
        }
        proof {
            assert(sets@.map_values(|s: String| s@) =~= spec_col_names(
                columns_view(self.columns@),
            ).skip(1).map_values(|n: Seq<char>| n + " = ?"@));
        }
        let mut r: String = "UPDATE ".to_owned();
        r.append(self.table_name.as_str());
        r.append(" SET ");
        r.append(join_with(&sets, ", ").as_str());
        r.append(" WHERE rowid = ?");
        r
    }
}

/// The non-identity cells of a record, in shape order: what an insert
/// binds.
pub fn non_identity_cells(record: &Vec<SqlValue>) -> (r: Vec<SqlValue>)
    requires
        record@.len() >= 1,
    ensures
        row_model(r@) =~= row_model(record@).skip(1),
{
    let mut r: Vec<SqlValue> = Vec::new();
    let mut i: usize = 1;
    while i < record.len()
        invariant
            1 <= i <= record@.len(),
            r@.len() == i - 1,
            forall|j: int| 0 <= j < r@.len() ==> (#[trigger] r@[j])@ == record@[j + 1]@,
        decreases record@.len() - i,
    {
        r.push(record[i].dup());
        i += 1;
    }
    proof {
        assert(row_model(r@) =~= row_model(record@).skip(1));
    }
    r
}

/// The single-row decision on a fetched result set: no row is `NotFound`;
/// otherwise exactly the first fetched row comes back.
pub fn first_row(rows: Vec<Vec<SqlValue>>) -> (r: Result<Vec<SqlValue>, TurboError>)
    ensures
        rows@.len() == 0 <==> r matches Err(TurboError::NotFound),
        rows@.len() > 0 ==> (r matches Ok(row) && row == rows@[0]),
        r matches Err(e) ==> e matches TurboError::NotFound,
{
    let mut rows = rows;
    if rows.len() == 0 {
        return Err(TurboError::NotFound);
    }
    Ok(rows.remove(0))
}

/// A handle on one table: the shape plus the lazily-run creation guard.
pub struct TableHandle {
    pub shape: RecordShape,
    pub created: bool,
}

impl TableHandle {
    /// A handle whose table has not been created yet.
    pub fn new(shape: RecordShape) -> (r: TableHandle)
        ensures
            r.shape == shape,
            !r.created,
    {
        TableHandle { shape, created: false }
    }

    /// Create the table if this handle has not done so yet; later calls are
    /// no-ops.  The statement itself is idempotent too (`IF NOT EXISTS`).
    pub fn ensure_created(&mut self, conn: &rusqlite::Connection) -> (r: Result<(), TurboError>)
        ensures
            old(self).created ==> (r is Ok && *final(self) == *old(self)),
            final(self).shape == old(self).shape,
            r is Ok ==> final(self).created,
            r is Err ==> *final(self) == *old(self),
            r matches Err(e) ==> e matches TurboError::Db { .. },
    {
        if self.created {
            return Ok(());
        }
        let no_params: Vec<SqlValue> = Vec::new();
        match exec_stmt(conn, self.shape.create_table_sql().as_str(), &no_params) {
            Ok(_) => {
                self.created = true;
                Ok(())
            },
            Err(e) => Err(TurboError::Db { message: db_message(&e) }),
        }
    }

    /// Insert a record: binds every non-identity cell in shape order; the
    /// identity cell of the record is ignored, since the engine assigns the
    /// new row id, which is returned.
    pub fn insert(&mut self, conn: &rusqlite::Connection, record: &Vec<SqlValue>) -> (r: Result<
        i64,
        TurboError,
    >)
        requires
            old(self).shape.wf(),
            record@.len() == old(self).shape.columns@.len(),
        ensures
            final(self).shape == old(self).shape,
            r matches Err(e) ==> e matches TurboError::Db { .. },
    {
        self.ensure_created(conn)?;
        let params = non_identity_cells(record);
        match exec_stmt(conn, self.shape.insert_sql().as_str(), &params) {
            Ok(_) => Ok(last_insert_rowid(conn)),
            Err(e) => Err(TurboError::Db { message: db_message(&e) }),
        }
    }

    /// Every row of the table, cells in shape order.  No ordering of the
    /// rows is imposed; callers needing one must use `select_where` with an
    /// explicit ordering clause.
    pub fn select_all(&mut self, conn: &rusqlite::Connection) -> (r: Result<
        Vec<Vec<SqlValue>>,
        TurboError,
    >)
        ensures
            final(self).shape == old(self).shape,
            r matches Err(e) ==> e matches TurboError::Db { .. },
    {
        self.ensure_created(conn)?;
        let no_params: Vec<SqlValue> = Vec::new();
        match query_rows(conn, self.shape.select_sql().as_str(), &no_params) {
            Ok(rows) => Ok(rows),
            Err(e) => Err(TurboError::Db { message: db_message(&e) }),
        }
    }

    /// The rows matching a caller-supplied predicate clause, appended to the
    /// validated base select after `WHERE`.
    pub fn select_where(
        &mut self,
        conn: &rusqlite::Connection,
        clause: &str,
        params: &Vec<SqlValue>,
    ) -> (r: Result<Vec<Vec<SqlValue>>, TurboError>)
        ensures
            final(self).shape == old(self).shape,
            r matches Err(e) ==> e matches TurboError::Db { .. },
    {
        self.ensure_created(conn)?;
        let mut sql = self.shape.select_sql();
        sql.append(" WHERE ");
        sql.append(clause);
        match query_rows(conn, sql.as_str(), params) {
            Ok(rows) => Ok(rows),
            Err(e) => Err(TurboError::Db { message: db_message(&e) }),
        }
    }

    /// The single row matching a predicate clause, or `NotFound` when no row
    /// matches.  The decision on the fetched rows is [`first_row`]'s.
    pub fn select_one_where(
        &mut self,
        conn: &rusqlite::Connection,
        clause: &str,
        params: &Vec<SqlValue>,
    ) -> (r: Result<Vec<SqlValue>, TurboError>)
        ensures
            final(self).shape == old(self).shape,
            r matches Err(e) ==> (e matches TurboError::Db { .. } || e
                matches TurboError::NotFound),
    {
        self.ensure_created(conn)?;
        let mut sql = self.shape.select_sql();
        sql.append(" WHERE ");
        sql.append(clause);
        sql.append(" LIMIT 1");
        let rows = match query_rows(conn, sql.as_str(), params) {
            Ok(rows) => rows,
            Err(e) => {
                return Err(TurboError::Db { message: db_message(&e) });
            },
        };
        first_row(rows)
    }

    /// Update the row the record's identity cell names, setting every
    /// non-identity column.  A record whose identity cell is not an integer
    /// is rejected: the identity must be populated.
    pub fn update(&mut self, conn: &rusqlite::Connection, record: &Vec<SqlValue>) -> (r: Result<
        usize,
        TurboError,
    >)
        requires
            old(self).shape.wf(),
            record@.len() == old(self).shape.columns@.len(),
        ensures
            final(self).shape == old(self).shape,
            (record@[0]@ is Integer) <==> !(r matches Err(TurboError::MissingRowIdValue)),
            r matches Err(e) ==> (e matches TurboError::Db { .. } || e
                matches TurboError::MissingRowIdValue),
    {
        let has_id: bool = match &record[0] {
            SqlValue::Integer(_) => true,
            _ => false,
        };
        if !has_id {
            return Err(TurboError::MissingRowIdValue);
        }
        self.ensure_created(conn)?;
        let mut params = non_identity_cells(record);
        params.push(record[0].dup());
        match exec_stmt(conn, self.shape.update_sql().as_str(), &params) {
            Ok(n) => Ok(n),
            Err(e) => Err(TurboError::Db { message: db_message(&e) }),
        }
    }
}

} // verus!
