//! Declared record shapes and the relational schema derived from them.
//!
//! A record shape maps one-to-one to a table; its table name is the declared
//! type name lowercased.  Every declared column is nullable except the
//! row-identity column, which aliases the storage engine's native row id and
//! must be present.  Unsigned 64-bit fields are rejected outright because
//! the storage engine cannot hold them losslessly.

use vstd::prelude::*;

use crate::error::TurboError;

verus! {

/// The declared Rust-side type of a record field.  Every field is optional
/// (nullable) in the stored row.
#[derive(Debug, Clone, Copy, PartialEq, Eq, Structural)]
pub enum FieldType {
    I8,
    U8,
    I16,
    U16,
    I32,
    U32,
    I53,
    I64,
    U64,
    F64,
    Bool,
    Text,
    Blob,
}

/// The storage class a column is declared with.  `RowId` is the integer
/// alias of the engine's native row id and doubles as the primary key.
#[derive(Debug, Clone, Copy, PartialEq, Eq, Structural)]
pub enum SqlType {
    RowId,
    Integer,
    Real,
    Text,
    Blob,
    Boolean,
}

/// One declared field of a record shape.  A skipped field stays in the
/// in-memory shape but is excluded from the table schema.
#[derive(Debug, Clone)]
pub struct FieldSpec {
    pub name: String,
    pub ty: FieldType,
    pub skip: bool,
}

/// One column of the derived table schema.
#[derive(Debug, Clone)]
pub struct Column {
    pub name: String,
    pub ty: SqlType,
}

/// ASCII lowercasing of a single character.
pub open spec fn lower_char(c: char) -> char {
    if 65 <= c as u32 <= 90 {
        (((c as u32) + 32) as u8) as char
    } else {
        c
    }
}

/// ASCII lowercasing of a whole name.
pub open spec fn spec_lowered(s: Seq<char>) -> Seq<char> {
    s.map_values(|c: char| lower_char(c))
}

/// ASCII lowercasing of a character vector.
pub fn lower_chars(v: &Vec<char>) -> (r: Vec<char>)
    ensures
        r@ == spec_lowered(v@),
{
    let mut out: Vec<char> = Vec::new();
    let mut i: usize = 0;
    while i < v.len()
        invariant
            i <= v@.len(),
            out@ =~= spec_lowered(v@.take(i as int)),
        decreases v@.len() - i,
    {
        let c = v[i];
        let u: u32 = c as u32;
        if 65 <= u && u <= 90 {
            out.push(((u + 32) as u8) as char);
        } else {
            out.push(c);
        }
        proof {
            assert(out@ =~= spec_lowered(v@.take(i as int + 1)));
        }
        i += 1;
    }
    proof {
        assert(v@.take(v@.len() as int) =~= v@);
    }
    out
}

/// The declared type name lowercased, which is the table name.
pub fn lowered(s: &str) -> (r: String)
    ensures
        r@ == spec_lowered(s@),
{
    let chars = crate::strutil::chars_of(s);
    let low = lower_chars(&chars);
    crate::strutil::string_of_chars(&low)
}

/// The field that satisfies the row-identity requirement: named `rowid`, of
/// 64-bit signed integer type, not skipped.
pub open spec fn is_row_id_field(f: FieldSpec) -> bool {
    &&& !f.skip
    &&& f.name@ == "rowid"@
    &&& f.ty == FieldType::I64
}

/// A field the storage engine cannot hold losslessly.
pub open spec fn is_unsupported_field(f: FieldSpec) -> bool {
    &&& !f.skip
    &&& f.ty == FieldType::U64
}

/// The storage class a declared field maps to.  Only meaningful for
/// supported fields.
pub open spec fn spec_column_type(f: FieldSpec) -> SqlType {
    if f.name@ == "rowid"@ && f.ty == FieldType::I64 {
        SqlType::RowId
    } else {
        match f.ty {
            FieldType::F64 => SqlType::Real,
            FieldType::Bool => SqlType::Boolean,
            FieldType::Text => SqlType::Text,
            FieldType::Blob => SqlType::Blob,
            _ => SqlType::Integer,
        }
    }
}

/// The derived columns of a shape: the non-skipped fields in declared
/// order, as (name, storage class) pairs.
pub open spec fn spec_columns(fields: Seq<FieldSpec>) -> Seq<(Seq<char>, SqlType)>
    decreases fields.len(),
{
    if fields.len() == 0 {
        Seq::empty()
    } else {
        let init = spec_columns(fields.drop_last());
        let f = fields.last();
        if f.skip {
            init
        } else {
            init.push((f.name@, spec_column_type(f)))
        }
    }
}

/// The view of a derived column vector as (name, storage class) pairs.
pub open spec fn columns_view(cols: Seq<Column>) -> Seq<(Seq<char>, SqlType)> {
    cols.map_values(|c: Column| (c.name@, c.ty))
}

/// Derive the table columns from the declared fields.
///
/// Skipped fields are left out.  The first unsigned 64-bit field is a fatal
/// declaration error; so is the absence of the row-identity field.
pub fn extract_columns(fields: &Vec<FieldSpec>) -> (r: Result<Vec<Column>, TurboError>)
    ensures
        r is Ok <==> {
            &&& forall|i: int|
                0 <= i < fields@.len() ==> !is_unsupported_field(#[trigger] fields@[i])
            &&& exists|i: int| 0 <= i < fields@.len() && is_row_id_field(#[trigger] fields@[i])
        },
        r matches Ok(cols) ==> columns_view(cols@) =~= spec_columns(fields@),
        r matches Err(e) ==> match e {
            TurboError::UnsupportedFieldType { field } => {
                exists|i: int|
                    {
                        &&& 0 <= i < fields@.len()
                        &&& is_unsupported_field(#[trigger] fields@[i])
                        &&& field@ == fields@[i].name@
                        &&& forall|j: int| 0 <= j < i ==> !is_unsupported_field(#[trigger] fields@[j])
                    }
            },
            TurboError::MissingRowId => {
                &&& forall|i: int|
                    0 <= i < fields@.len() ==> !is_unsupported_field(#[trigger] fields@[i])
                &&& forall|i: int|
                    0 <= i < fields@.len() ==> !is_row_id_field(#[trigger] fields@[i])
            },
            _ => false,
        },
{
    let rowid_name: String = "rowid".to_owned();
    let mut cols: Vec<Column> = Vec::new();
    let mut have_row_id: bool = false;
    let mut i: usize = 0;
    while i < fields.len()
        invariant
            i <= fields@.len(),
            columns_view(cols@) =~= spec_columns(fields@.take(i as int)),
            rowid_name@ == "rowid"@,
            forall|j: int| 0 <= j < i ==> !is_unsupported_field(#[trigger] fields@[j]),
            have_row_id <==> exists|j: int|
                0 <= j < i && is_row_id_field(#[trigger] fields@[j]),
        decreases fields@.len() - i,
    {
        let f = &fields[i];
        if !f.skip {
            let is_row_id: bool = f.name == rowid_name && f.ty == FieldType::I64;
            let ty: SqlType = if is_row_id {
                SqlType::RowId
            } else {
                match f.ty {
                    FieldType::U64 => {
                        return Err(TurboError::UnsupportedFieldType { field: f.name.clone() });
                    },
                    FieldType::F64 => SqlType::Real,
                    FieldType::Bool => SqlType::Boolean,
                    FieldType::Text => SqlType::Text,
                    FieldType::Blob => SqlType::Blob,
                    _ => SqlType::Integer,
                }
            };
            if is_row_id {
                have_row_id = true;
            }
            cols.push(Column { name: f.name.clone(), ty });
        }
        proof {
            assert(fields@.take(i as int + 1).drop_last() =~= fields@.take(i as int));
            assert(fields@.take(i as int + 1).last() == fields@[i as int]);
            assert(columns_view(cols@) =~= spec_columns(fields@.take(i as int + 1)));
        }
        i += 1;
    }
    proof {
        assert(fields@.take(fields@.len() as int) =~= fields@);
    }
    if !have_row_id {
        return Err(TurboError::MissingRowId);
    }
    Ok(cols)
}

} // verus!
