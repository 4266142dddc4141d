//! The schema registry: the build-wide table of declared record shapes,
//! keyed by table name.  Shapes are immutable once registered; lookups are
//! by name, never by position.

use vstd::multiset::Multiset;
use vstd::prelude::*;

use crate::error::TurboError;
use crate::schema::{
    columns_view, extract_columns, is_row_id_field, lowered, spec_columns, spec_lowered, Column,
    FieldSpec, SqlType,
};

verus! {

/// A declared record shape after validation: its table name and the derived
/// column list, in declared order.
#[derive(Debug, Clone)]
pub struct RecordShape {
    pub table_name: String,
    pub columns: Vec<Column>,
}

impl RecordShape {
    /// A shape's first column is always its row-identity column.
    pub open spec fn wf(self) -> bool {
        &&& self.columns@.len() >= 1
        &&& self.columns@[0].ty == SqlType::RowId
        &&& self.columns@[0].name@ == "rowid"@
    }

    /// Validate a declared shape: derive its columns, check the row-identity
    /// requirement, and move the row-identity column to the front, where the
    /// generated create-table statement declares it as the primary key
    /// alias.  The table name is the declared type name lowercased.
    pub fn declare(declared_name: &str, fields: &Vec<FieldSpec>) -> (r: Result<
        RecordShape,
        TurboError,
    >)
        ensures
            r is Ok <==> {
                &&& forall|i: int|
                    0 <= i < fields@.len() ==> !crate::schema::is_unsupported_field(
                        #[trigger] fields@[i],
                    )
                &&& exists|i: int|
                    0 <= i < fields@.len() && is_row_id_field(#[trigger] fields@[i])
            },
            r matches Ok(shape) ==> {
                &&& shape.table_name@ == spec_lowered(declared_name@)
                &&& columns_view(shape.columns@) =~= spec_rowid_first(spec_columns(fields@))
                &&& shape.wf()
            },
            r matches Err(e) ==> match e {
                TurboError::UnsupportedFieldType { field } => {
                    exists|i: int|
                        {
                            &&& 0 <= i < fields@.len()
                            &&& crate::schema::is_unsupported_field(#[trigger] fields@[i])
                            &&& field@ == fields@[i].name@
                        }
                },
                TurboError::MissingRowId => {
                    forall|i: int|
                        0 <= i < fields@.len() ==> !is_row_id_field(#[trigger] fields@[i])
                },
                _ => false,
            },
    {
        let mut columns = extract_columns(fields)?;
        let ghost sc = spec_columns(fields@);
        proof {
            lemma_spec_columns_has_row_id(fields@);
            lemma_spec_columns_rowid_named(fields@);
        }
        let mut k: usize = 0;
        while k < columns.len() && columns[k].ty != SqlType::RowId
            invariant
                columns_view(columns@) =~= sc,
                k <= columns@.len(),
                forall|j: int| 0 <= j < k ==> (#[trigger] columns@[j]).ty != SqlType::RowId,
            decreases columns@.len() - k,
        {
            k += 1;
        }
        if k >= columns.len() {
            // unreachable: extract_columns guaranteed a row-identity column
            proof {
                let h = choose|h: int| 0 <= h < sc.len() && (#[trigger] sc[h]).1 == SqlType::RowId;
                assert(columns@[h].ty == SqlType::RowId);
                assert(false);
            }
            return Err(TurboError::MissingRowId);
        }
        proof {
            lemma_first_rowid_hit(sc, k as int);
        }
        let rowid_col = columns.remove(k);
        columns.insert(0, rowid_col);
        proof {
            assert(columns_view(columns@) =~= spec_rowid_first(sc));
            assert(columns@[0].ty == sc[k as int].1);
            assert(columns@[0].name@ == sc[k as int].0);
        }
        Ok(RecordShape { table_name: lowered(declared_name), columns })
    }
}

/// The position of the first row-identity column.
pub open spec fn first_rowid_index(cols: Seq<(Seq<char>, SqlType)>) -> int
    decreases cols.len(),
{
    if cols.len() == 0 {
        0
    } else if cols[0].1 == SqlType::RowId {
        0
    } else {
        1 + first_rowid_index(cols.drop_first())
    }
}

/// The columns with the first row-identity column moved to the front and
/// everything else kept in declared order.
pub open spec fn spec_rowid_first(cols: Seq<(Seq<char>, SqlType)>) -> Seq<(Seq<char>, SqlType)> {
    let k = first_rowid_index(cols);
    seq![cols[k]] + cols.remove(k)
}

/// Law: moving the row-identity column to the front only reorders; the
/// derived columns are exactly the declared ones.
pub proof fn lemma_rowid_first_permutes(cols: Seq<(Seq<char>, SqlType)>)
    requires
        0 <= first_rowid_index(cols) < cols.len(),
    ensures
        spec_rowid_first(cols).to_multiset() == cols.to_multiset(),
        spec_rowid_first(cols).len() == cols.len(),
{
    let k = first_rowid_index(cols);
    broadcast use vstd::seq_lib::group_to_multiset_ensures;

    vstd::seq_lib::lemma_multiset_commutative(seq![cols[k]], cols.remove(k));
    assert(seq![cols[k]].to_multiset() =~= Multiset::<(Seq<char>, SqlType)>::empty().insert(
        cols[k],
    ));
    assert(cols.remove(k).to_multiset() =~= cols.to_multiset().remove(cols[k]));
    assert(spec_rowid_first(cols).to_multiset() =~= cols.to_multiset());
}

/// The first row-identity position is where the scan stops.
proof fn lemma_first_rowid_hit(cols: Seq<(Seq<char>, SqlType)>, k: int)
    requires
        0 <= k < cols.len(),
        cols[k].1 == SqlType::RowId,
        forall|j: int| 0 <= j < k ==> (#[trigger] cols[j]).1 != SqlType::RowId,
    ensures
        first_rowid_index(cols) == k,
    decreases k,
{
    if k > 0 {
        lemma_first_rowid_hit(cols.drop_first(), k - 1);
    }
}

/// Every derived row-identity column is named `rowid`: no other field maps
/// to the row-identity storage class.
proof fn lemma_spec_columns_rowid_named(fields: Seq<FieldSpec>)
    ensures
        forall|k: int|
            0 <= k < spec_columns(fields).len() && (#[trigger] spec_columns(fields)[k]).1
                == SqlType::RowId ==> spec_columns(fields)[k].0 == "rowid"@,
    decreases fields.len(),
{
    if fields.len() > 0 {
        lemma_spec_columns_rowid_named(fields.drop_last());
    }
}

/// If some field is the row-identity field, the derived columns hold a
/// row-identity column.
proof fn lemma_spec_columns_has_row_id(fields: Seq<FieldSpec>)
    requires
        exists|i: int| 0 <= i < fields.len() && is_row_id_field(#[trigger] fields[i]),
    ensures
        exists|k: int|
            0 <= k < spec_columns(fields).len() && (#[trigger] spec_columns(fields)[k]).1
                == SqlType::RowId,
    decreases fields.len(),
{
    let i = choose|i: int| 0 <= i < fields.len() && is_row_id_field(#[trigger] fields[i]);
    if i == fields.len() - 1 {
        let f = fields.last();
        assert(spec_columns(fields).last().1 == SqlType::RowId);
    } else {
        assert(is_row_id_field(fields.drop_last()[i]));
        lemma_spec_columns_has_row_id(fields.drop_last());
        let k = choose|k: int|
            0 <= k < spec_columns(fields.drop_last()).len() && (#[trigger] spec_columns(
                fields.drop_last(),
            )[k]).1 == SqlType::RowId;
        assert(spec_columns(fields)[k].1 == SqlType::RowId);
    }
}

/// Find the shape registered under the given table name.
pub open spec fn spec_find(shapes: Seq<RecordShape>, name: Seq<char>) -> Option<RecordShape>
    decreases shapes.len(),
{
    if shapes.len() == 0 {
        None
    } else if shapes[0].table_name@ == name {
        Some(shapes[0])
    } else {
        spec_find(shapes.drop_first(), name)
    }
}

/// A miss at every position means the search misses.
proof fn lemma_spec_find_miss(shapes: Seq<RecordShape>, name: Seq<char>)
    requires
        forall|j: int| 0 <= j < shapes.len() ==> (#[trigger] shapes[j]).table_name@ != name,
    ensures
        spec_find(shapes, name) is None,
    decreases shapes.len(),
{
    if shapes.len() > 0 {
        lemma_spec_find_miss(shapes.drop_first(), name);
    }
}

/// A hit at the first matching position is what the search returns.
proof fn lemma_spec_find_hit(shapes: Seq<RecordShape>, name: Seq<char>, i: int)
    requires
        0 <= i < shapes.len(),
        shapes[i].table_name@ == name,
        forall|j: int| 0 <= j < i ==> (#[trigger] shapes[j]).table_name@ != name,
    ensures
        spec_find(shapes, name) == Some(shapes[i]),
    decreases i,
{
    if i > 0 {
        lemma_spec_find_hit(shapes.drop_first(), name, i - 1);
    }
}

/// The build-wide table of declared record shapes.
pub struct SchemaRegistry {
    pub shapes: Vec<RecordShape>,
}

impl SchemaRegistry {
    /// Table names are unique and every shape carries its row-identity
    /// column.
    pub open spec fn wf(self) -> bool {
        &&& forall|i: int, j: int|
            0 <= i < j < self.shapes@.len() ==> (#[trigger] self.shapes@[i]).table_name@ != (
            #[trigger] self.shapes@[j]).table_name@
        &&& forall|i: int| 0 <= i < self.shapes@.len() ==> (#[trigger] self.shapes@[i]).wf()
    }

    /// The shape registered under a table name, if any.
    pub open spec fn spec_lookup(self, name: Seq<char>) -> Option<RecordShape> {
        spec_find(self.shapes@, name)
    }

    /// An empty registry.
    pub fn new() -> (r: SchemaRegistry)
        ensures
            r.wf(),
            forall|n: Seq<char>| r.spec_lookup(n) is None,
    {
        SchemaRegistry { shapes: Vec::new() }
    }

    /// Register a shape under its table name.  Re-registering a name
    /// replaces the earlier shape; every other name is untouched.
    pub fn register(&mut self, shape: RecordShape)
        requires
            old(self).wf(),
            shape.wf(),
        ensures
            final(self).wf(),
            final(self).spec_lookup(shape.table_name@) == Some(shape),
            forall|n: Seq<char>|
                n != shape.table_name@ ==> #[trigger] final(self).spec_lookup(n) == old(
                    self,
                ).spec_lookup(n),
    {
        let ghost old_shapes = self.shapes@;
        let mut i: usize = 0;
        while i < self.shapes.len()
            invariant
                self.shapes@ == old_shapes,
                old_shapes == old(self).shapes@,
                old(self).wf(),
                shape.wf(),
                i <= old_shapes.len(),
                forall|j: int|
                    0 <= j < i ==> (#[trigger] old_shapes[j]).table_name@ != shape.table_name@,
            decreases old_shapes.len() - i,
        {
            if self.shapes[i].table_name == shape.table_name {
                self.shapes.set(i, shape);
                proof {
                    assert(self.shapes@ == old_shapes.update(i as int, shape));
                    lemma_find_update_hit(old_shapes, i as int, shape);
                    assert forall|n: Seq<char>| n != shape.table_name@ implies #[trigger] spec_find(
                        self.shapes@,
                        n,
                    ) == spec_find(old_shapes, n) by {
                        lemma_find_update_other(old_shapes, i as int, shape, n);
                    }
                    assert forall|p: int, q: int|
                        0 <= p < q < self.shapes@.len() implies (
                    #[trigger] self.shapes@[p]).table_name@ != (
                    #[trigger] self.shapes@[q]).table_name@ by {
                        assert(old_shapes[p].table_name@ != old_shapes[q].table_name@);
                        assert(self.shapes@[p].table_name@ == old_shapes[p].table_name@);
                        assert(self.shapes@[q].table_name@ == old_shapes[q].table_name@);
                    }
                    assert forall|p: int|
                        0 <= p < self.shapes@.len() implies (#[trigger] self.shapes@[p]).wf() by {
                        if p != i as int {
                            assert(old_shapes[p].wf());
                            assert(self.shapes@[p] == old_shapes[p]);
                        } else {
                            assert(self.shapes@[p] == shape);
                        }
                    }
                }
                return ;
            }
            i += 1;
        }
        self.shapes.push(shape);
        proof {
            lemma_find_push_hit(old_shapes, shape);
            assert forall|n: Seq<char>| n != shape.table_name@ implies #[trigger] spec_find(
                self.shapes@,
                n,
            ) == spec_find(old_shapes, n) by {
                lemma_find_push_other(old_shapes, shape, n);
            }
            assert forall|p: int, q: int|
                0 <= p < q < self.shapes@.len() implies (#[trigger] self.shapes@[p]).table_name@
                != (#[trigger] self.shapes@[q]).table_name@ by {
                if q == old_shapes.len() as int {
                    assert(self.shapes@[q] == shape);
                    assert(self.shapes@[p] == old_shapes[p]);
                } else {
                    assert(self.shapes@[p] == old_shapes[p]);
                    assert(self.shapes@[q] == old_shapes[q]);
                }
            }
            assert forall|p: int|
                0 <= p < self.shapes@.len() implies (#[trigger] self.shapes@[p]).wf() by {
                if p != old_shapes.len() as int {
                    assert(self.shapes@[p] == old_shapes[p]);
                }
            }
        }
    }

    /// Look a table name up.  Used when a query fragment names a result type
    /// but supplies no explicit column annotations.
    pub fn lookup(&self, name: &str) -> (r: Result<&RecordShape, TurboError>)
        ensures
            r is Ok <==> self.spec_lookup(name@) is Some,
            r matches Ok(shape) ==> Some(*shape) == self.spec_lookup(name@),
            r matches Err(e) ==> e matches TurboError::UnknownTable { table } && table@ == name@,
    {
        let name_string: String = name.to_owned();
        let mut i: usize = 0;
        while i < self.shapes.len()
            invariant
                name_string@ == name@,
                i <= self.shapes@.len(),
                forall|j: int|
                    0 <= j < i ==> (#[trigger] self.shapes@[j]).table_name@ != name@,
            decreases self.shapes@.len() - i,
        {
            if self.shapes[i].table_name == name_string {
                proof {
                    lemma_spec_find_hit(self.shapes@, name@, i as int);
                }
                return Ok(&self.shapes[i]);
            }
            i += 1;
        }
        proof {
            lemma_spec_find_miss(self.shapes@, name@);
        }
        Err(TurboError::UnknownTable { table: name.to_owned() })
    }
}

/// Replacing the first slot whose name matches the new shape's serves the
/// new shape under that name.
proof fn lemma_find_update_hit(shapes: Seq<RecordShape>, i: int, shape: RecordShape)
    requires
        0 <= i < shapes.len(),
        shapes[i].table_name@ == shape.table_name@,
        forall|j: int| 0 <= j < i ==> (#[trigger] shapes[j]).table_name@ != shape.table_name@,
    ensures
        spec_find(shapes.update(i, shape), shape.table_name@) == Some(shape),
    decreases i,
{
    let upd = shapes.update(i, shape);
    if i == 0 {
        assert(upd[0] == shape);
    } else {
        lemma_find_update_hit(shapes.drop_first(), i - 1, shape);
        assert(upd[0] == shapes[0]);
        assert(upd.drop_first() =~= shapes.drop_first().update(i - 1, shape));
    }
}

/// Replacing a slot whose name equals the new shape's leaves every other
/// name's lookup unchanged.
proof fn lemma_find_update_other(
    shapes: Seq<RecordShape>,
    i: int,
    shape: RecordShape,
    n: Seq<char>,
)
    requires
        0 <= i < shapes.len(),
        shapes[i].table_name@ == shape.table_name@,
        n != shape.table_name@,
    ensures
        spec_find(shapes.update(i, shape), n) == spec_find(shapes, n),
    decreases i,
{
    let upd = shapes.update(i, shape);
    if i == 0 {
        assert(upd[0] == shape);
        assert(upd.drop_first() =~= shapes.drop_first());
    } else {
        lemma_find_update_other(shapes.drop_first(), i - 1, shape, n);
        assert(upd[0] == shapes[0]);
        assert(upd.drop_first() =~= shapes.drop_first().update(i - 1, shape));
    }
}

/// Appending a shape under a fresh name serves it under that name.
proof fn lemma_find_push_hit(shapes: Seq<RecordShape>, shape: RecordShape)
    requires
        forall|j: int|
            0 <= j < shapes.len() ==> (#[trigger] shapes[j]).table_name@ != shape.table_name@,
    ensures
        spec_find(shapes.push(shape), shape.table_name@) == Some(shape),
    decreases shapes.len(),
{
    let pushed = shapes.push(shape);
    if shapes.len() == 0 {
        assert(pushed[0] == shape);
    } else {
        lemma_find_push_hit(shapes.drop_first(), shape);
        assert(pushed[0] == shapes[0]);
        assert(pushed.drop_first() =~= shapes.drop_first().push(shape));
    }
}

/// Appending a shape leaves every other name's lookup unchanged.
proof fn lemma_find_push_other(shapes: Seq<RecordShape>, shape: RecordShape, n: Seq<char>)
    requires
        n != shape.table_name@,
    ensures
        spec_find(shapes.push(shape), n) == spec_find(shapes, n),
    decreases shapes.len(),
{
    let pushed = shapes.push(shape);
    if shapes.len() == 0 {
        assert(pushed[0] == shape);
        assert(pushed.drop_first() =~= Seq::<RecordShape>::empty());
        assert(spec_find(pushed.drop_first(), n) is None);
    } else {
        lemma_find_push_other(shapes.drop_first(), shape, n);
        assert(pushed[0] == shapes[0]);
        assert(pushed.drop_first() =~= shapes.drop_first().push(shape));
    }
}

} // verus!
