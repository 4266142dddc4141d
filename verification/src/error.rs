//! The error taxonomy: declaration errors, validation errors, migration
//! drift, and runtime statement failures.

use vstd::prelude::*;

verus! {

/// Every failure the engine can report.  Declaration and validation errors
/// surface before any statement touches live data; `Db` carries a runtime
/// statement failure through to the caller.
#[derive(Debug, Clone, PartialEq, Eq)]
pub enum TurboError {
    /// A declared record shape lacks the required row-identity column.
    MissingRowId,
    /// A declared field uses a type the storage engine cannot hold losslessly
    /// (unsigned 64-bit integers in particular).
    UnsupportedFieldType { field: String },
    /// A query fragment named a result type whose table was never registered.
    UnknownTable { table: String },
    /// A result column carries a type tag outside the recognized closed set.
    InvalidTypeTag { column: String, tag: String },
    /// The live applied-migration log disagrees with the target sequence at a
    /// shared position.
    MigrationDrift { position: usize, applied_statement: String, target_statement: String },
    /// The live database has more migrations applied than the target sequence
    /// declares.
    UnknownMigrations { applied_count: usize, target_count: usize },
    /// Replaying a migration statement failed.
    MigrationFailed { position: usize, statement: String, message: String },
    /// A statement failed to prepare against the fully migrated scratch
    /// database.
    SqlInvalid { sql: String, message: String },
    /// The prepared statement expects a different number of bound parameters
    /// than the call site supplies.
    ParamCountMismatch { expected: usize, got: usize, sql: String },
    /// A select fragment supplies neither typed result columns nor a result
    /// type to look up.
    NoResultShape,
    /// The database path was set after the connection had already been opened.
    AlreadyOpen,
    /// An operation needed the live connection before it was opened.
    NotOpen,
    /// A single-row select matched no row.
    NotFound,
    /// An update was asked of a record whose row-identity column is empty.
    MissingRowIdValue,
    /// A runtime statement failure reported by the storage engine.
    Db { message: String },
}

} // verus!
