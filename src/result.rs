use vstd::prelude::*;

use crate::row::{inserted_all, unique_keys, RowMap};
use crate::value::{admit_cell, admitted, column_kind, copy_value, kind_of, SqlValue};

verus! {

/// A column as the database reports it: its name, the name of its type and
/// its wire type identifier.
#[derive(Clone, Debug, PartialEq)]
pub struct RawColumn {
    pub name: String,
    pub declared_type: String,
    pub type_oid: u32,
}

/// A column of a result: its name, the name of its declared type and its
/// position.
#[derive(Clone, Debug, PartialEq)]
pub struct ColInfo {
    pub name: String,
    pub col_type: String,
    pub order_idx: i32,
}

/// The outcome of a query: the columns in the order the database reports
/// them, and one mapping from column name to value per returned row.
#[derive(Clone, Debug, PartialEq)]
pub struct ExecuteQueryResult {
    pub columns: Vec<ColInfo>,
    pub rows: Vec<RowMap>,
}

/// Whether `c` describes the reported column `raw` at position `i`.
pub open spec fn describes(c: ColInfo, raw: RawColumn, i: int) -> bool {
    c.name@ == raw.name@ && c.col_type@ == raw.declared_type@ && c.order_idx == i
}

/// The (name, value) pairs of a row whose decoded cells are `cells`, in
/// column order: each cell is admitted under its column's kind.
pub open spec fn row_pairs(columns: Seq<RawColumn>, cells: Seq<SqlValue>) -> Seq<
    (Seq<char>, SqlValue),
> {
    Seq::new(
        columns.len(),
        |i: int| (columns[i].name@, admitted(kind_of(columns[i].type_oid), cells[i])),
    )
}

/// The entries of the row mapping built from `cells`: its pairs inserted in
/// column order, so that of two columns with one name the later one wins.
pub open spec fn row_entries(columns: Seq<RawColumn>, cells: Seq<SqlValue>) -> Seq<
    (Seq<char>, SqlValue),
> {
    inserted_all(row_pairs(columns, cells))
}

/// Whether no two columns share a name.
pub open spec fn distinct_names(columns: Seq<RawColumn>) -> bool {
    forall|i: int, j: int|
        0 <= i < j < columns.len() ==> #[trigger] columns[i].name@ != #[trigger] columns[j].name@
}

/// The column descriptions of `columns`, one per column, numbered from zero
/// in the reported order.
pub fn column_infos(columns: &Vec<RawColumn>) -> (r: Vec<ColInfo>)
    requires
        columns.len() <= i32::MAX,
    ensures
        r.len() == columns.len(),
        forall|i: int| 0 <= i < r.len() ==> describes(#[trigger] r[i], columns[i], i),
{
    let mut r: Vec<ColInfo> = Vec::new();
    let mut i: usize = 0;
    while i < columns.len()
        invariant
            i <= columns.len() <= i32::MAX,
            r.len() == i,
            forall|j: int| 0 <= j < i ==> describes(#[trigger] r[j], columns[j], j),
        decreases columns.len() - i,
    {
        let c = &columns[i];
        r.push(ColInfo { name: c.name.clone(), col_type: c.declared_type.clone(), order_idx: i as i32 });
        i += 1;
    }
    r
}

/// The row mapping for one returned row, from its decoded cells in column
/// order. A cell of a column whose type has no mapping, or that is not of
/// its column's variant, becomes the null variant; the others keep their
/// value, SQL null included.
pub fn build_row(columns: &Vec<RawColumn>, cells: &Vec<SqlValue>) -> (r: RowMap)
    requires
        cells.len() == columns.len(),
    ensures
        r@ == row_entries(columns@, cells@),
        unique_keys(r@),
{
    let ghost pairs = row_pairs(columns@, cells@);
    let mut r = RowMap::new();
    let mut i: usize = 0;
    assert(pairs.take(0) =~= Seq::<(Seq<char>, SqlValue)>::empty());
    while i < columns.len()
        invariant
            i <= columns.len() == cells.len(),
            pairs == row_pairs(columns@, cells@),
            r@ == inserted_all(pairs.take(i as int)),
            unique_keys(r@),
        decreases columns.len() - i,
    {
        let kind = column_kind(columns[i].type_oid);
        let v = admit_cell(kind, copy_value(&cells[i]));
        r.insert(columns[i].name.clone(), v);
        assert(pairs.take(i + 1).drop_last() =~= pairs.take(i as int));
        i += 1;
    }
    assert(pairs.take(i as int) =~= pairs);
    r
}

/// Assembles the result of a query from the columns of its first row and
/// the decoded cells of every row. No rows give no columns and no rows.
pub fn build_result(columns: &Vec<RawColumn>, rows: &Vec<Vec<SqlValue>>) -> (r: ExecuteQueryResult)
    requires
        columns.len() <= i32::MAX,
        forall|k: int| 0 <= k < rows.len() ==> #[trigger] rows[k].len() == columns.len(),
    ensures
        rows.len() == 0 ==> r.columns.len() == 0,
        rows.len() > 0 ==> r.columns.len() == columns.len(),
        rows.len() > 0 ==> forall|i: int|
            0 <= i < r.columns.len() ==> describes(#[trigger] r.columns[i], columns[i], i),
        r.rows.len() == rows.len(),
        forall|k: int|
            0 <= k < r.rows.len() ==> #[trigger] r.rows[k]@ == row_entries(columns@, rows[k]@),
{
    let mut result = ExecuteQueryResult { columns: Vec::new(), rows: Vec::new() };
    if rows.len() == 0 {
        return result;
    }
    result.columns = column_infos(columns);
    let mut k: usize = 0;
    while k < rows.len()
        invariant
            k <= rows.len(),
            forall|q: int| 0 <= q < rows.len() ==> #[trigger] rows[q].len() == columns.len(),
            result.columns.len() == columns.len(),
            forall|i: int|
                0 <= i < result.columns.len() ==> describes(#[trigger] result.columns[i], columns[i], i),
            result.rows.len() == k,
            forall|q: int|
                0 <= q < k ==> #[trigger] result.rows[q]@ == row_entries(columns@, rows[q]@),
        decreases rows.len() - k,
    {
        let row = build_row(columns, &rows[k]);
        result.rows.push(row);
        k += 1;
    }
    result
}

} // verus!
