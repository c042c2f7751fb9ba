use vstd::prelude::*;

use crate::bind::{binds_to, BoundParam};
use crate::result::{distinct_names, row_entries, row_pairs, RawColumn};
use crate::row::{has_key, inserted_all, unique_keys};
use crate::value::{admitted, fits_kind, kind_of, ColumnKind, SqlValue, OID_TEXT};

verus! {

/// Inserting pairs with distinct names, in order, keeps every pair where it
/// stood.
pub proof fn lemma_inserted_all_distinct(p: Seq<(Seq<char>, SqlValue)>)
    requires
        unique_keys(p),
    ensures
        inserted_all(p) == p,
    decreases p.len(),
{
    if p.len() > 0 {
        let q = p.drop_last();
        assert(unique_keys(q));
        lemma_inserted_all_distinct(q);
        if has_key(q, p.last().0) {
            let j = choose|j: int| 0 <= j < q.len() && #[trigger] q[j].0 == p.last().0;
            assert(p[j].0 == p[p.len() - 1].0);
        }
        assert(q.push(p.last()) =~= p);
    }
}

/// In a row whose columns have distinct names, the i-th entry is the i-th
/// column's name with its cell admitted under that column's kind: the
/// mapping holds each column, in column order.
pub proof fn lemma_row_follows_columns(columns: Seq<RawColumn>, cells: Seq<SqlValue>)
    requires
        distinct_names(columns),
        cells.len() == columns.len(),
    ensures
        row_entries(columns, cells) == row_pairs(columns, cells),
        row_entries(columns, cells).len() == columns.len(),
{
    let p = row_pairs(columns, cells);
    assert forall|i: int, j: int| 0 <= i < j < p.len() implies #[trigger] p[i].0 != #[trigger] p[j].0 by {
        assert(columns[i].name@ != columns[j].name@);
    }
    lemma_inserted_all_distinct(p);
}

/// A cell of a column whose type has no mapping holds the null variant,
/// while a cell of a sibling column of a recognized type keeps its decoded
/// value.
pub proof fn lemma_unsupported_cell_is_null(
    columns: Seq<RawColumn>,
    cells: Seq<SqlValue>,
    i: int,
    j: int,
)
    requires
        distinct_names(columns),
        cells.len() == columns.len(),
        0 <= i < columns.len(),
        0 <= j < columns.len(),
        kind_of(columns[i].type_oid) == ColumnKind::Unsupported,
        fits_kind(kind_of(columns[j].type_oid), cells[j]),
    ensures
        row_entries(columns, cells)[i] == (columns[i].name@, SqlValue::Null),
        row_entries(columns, cells)[j] == (columns[j].name@, cells[j]),
{
    lemma_row_follows_columns(columns, cells);
}

/// A SQL null read from a text-like column stays the text variant with no
/// value; it never becomes the null variant.
pub proof fn lemma_text_null_stays_text(oid: u32)
    requires
        kind_of(oid) == ColumnKind::Text,
    ensures
        admitted(kind_of(oid), SqlValue::String(None)) == SqlValue::String(None),
        admitted(kind_of(oid), SqlValue::String(None)) != SqlValue::Null,
{
}

/// A recognized column keeps every decoded value of its own variant, the
/// absent one included.
pub proof fn lemma_recognized_cell_kept(oid: u32, v: SqlValue)
    requires
        fits_kind(kind_of(oid), v),
    ensures
        kind_of(oid) != ColumnKind::Unsupported,
        admitted(kind_of(oid), v) == v,
        v != SqlValue::Null,
{
}

/// A text parameter binds to exactly its text, and the same text read back
/// from a text column is kept unchanged.
pub proof fn lemma_text_round_trip(s: String, b: BoundParam)
    requires
        binds_to(SqlValue::String(Some(s)), b),
    ensures
        b == BoundParam::Text(Some(s)),
        admitted(kind_of(OID_TEXT), SqlValue::String(Some(s))) == SqlValue::String(Some(s)),
{
}

/// The null variant binds to the empty text literal.
pub proof fn lemma_null_binds_empty_text(b: BoundParam)
    requires
        binds_to(SqlValue::Null, b),
    ensures
        b matches BoundParam::Text(Some(s)) && s@.len() == 0,
{
}

} // verus!
