//! The query executor: runs caller-supplied SQL verbatim against an opened
//! database and converts the materialized rows into ordered generic row
//! objects keyed by the column names.
//!
//! Conversion is a pure per-row, order-preserving map: output position `k`
//! derives only from input position `k`. The rows are first materialized in
//! the engine's order; the conversion step may then run across compute units
//! without altering the observed order, and `convert_rows` is its sequential
//! twin with the same contract.

use vstd::prelude::*;
use crate::sqlite::{run_query, strings_view, PoolHandle, QueryError};
use crate::values::{
    cells_view, encode_value, spec_encode_cell, ApiValView, ApiValue, SqlValView, SqlValue,
};
use rayon::iter::IntoParallelRefIterator;
use rayon::iter::ParallelIterator;

verus! {

/// The views of a row object's pairs.
pub open spec fn pairs_view(v: Seq<(String, ApiValue)>) -> Seq<(Seq<char>, ApiValView)> {
    v.map_values(|p: (String, ApiValue)| (p.0@, p.1@))
}

/// The generic row object for one result row: the conversion of each cell,
/// keyed by the column name at the same position. Where the widths disagree
/// the row stops at the shorter.
pub open spec fn spec_convert_row(cols: Seq<Seq<char>>, cells: Seq<SqlValView>) -> Seq<
    (Seq<char>, ApiValView),
> {
    Seq::new(
        if cols.len() <= cells.len() {
            cols.len()
        } else {
            cells.len()
        },
        |i: int| (cols[i], spec_encode_cell(cells[i])),
    )
}

/// Whether `out` is exactly the row-by-row conversion of `raw` under the
/// column names `cols`.
pub open spec fn rows_match(
    cols: Seq<Seq<char>>,
    raw: Seq<Vec<SqlValue>>,
    out: Seq<Vec<(String, ApiValue)>>,
) -> bool {
    &&& out.len() == raw.len()
    &&& forall|k: int|
        0 <= k < raw.len() ==> pairs_view((#[trigger] out[k])@) == spec_convert_row(
            cols,
            cells_view(raw[k]@),
        )
}

/// A copy of one cell.
fn clone_cell(c: &SqlValue) -> (r: SqlValue)
    ensures
        r@ == c@,
{
    match c {
        SqlValue::Null => SqlValue::Null,
        SqlValue::Integer(i) => SqlValue::Integer(*i),
        SqlValue::Real(bits) => SqlValue::Real(*bits),
        SqlValue::Text(s) => SqlValue::Text(s.clone()),
        SqlValue::Blob(b) => SqlValue::Blob(clone_bytes(b)),
    }
}

/// A copy of a byte vector.
fn clone_bytes(b: &Vec<u8>) -> (r: Vec<u8>)
    ensures
        r@ == b@,
{
    let mut r: Vec<u8> = Vec::new();
    let mut i: usize = 0;
    while i < b.len()
        invariant
            i <= b@.len(),
            r@ == b@.subrange(0, i as int),
        decreases b@.len() - i,
    {
        r.push(b[i]);
        proof {
            assert(r@ =~= b@.subrange(0, i + 1 as int));
        }
        i = i + 1;
    }
    proof {
        assert(r@ =~= b@);
    }
    r
}

/// Converts one materialized row into its generic row object.
pub fn convert_row(columns: &Vec<String>, cells: &Vec<SqlValue>) -> (r: Vec<(String, ApiValue)>)
    ensures
        pairs_view(r@) == spec_convert_row(strings_view(columns@), cells_view(cells@)),
{
    let n: usize = if columns.len() <= cells.len() {
        columns.len()
    } else {
        cells.len()
    };
    let mut out: Vec<(String, ApiValue)> = Vec::new();
    let mut i: usize = 0;
    while i < n
        invariant
            i <= n,
            n == if columns@.len() <= cells@.len() {
                columns@.len()
            } else {
                cells@.len()
            },
            out@.len() == i,
            forall|j: int|
                0 <= j < i ==> (#[trigger] out@[j]).0@ == columns@[j]@ && out@[j].1@
                    == spec_encode_cell(cells@[j]@),
        decreases n - i,
    {
        let v = encode_value(clone_cell(&cells[i]));
        out.push((columns[i].clone(), v));
        i = i + 1;
    }
    proof {
        assert(pairs_view(out@) =~= spec_convert_row(strings_view(columns@), cells_view(cells@)));
    }
    out
}

/// Converts every materialized row, sequentially, in order.
pub fn convert_rows(columns: &Vec<String>, raw: &Vec<Vec<SqlValue>>) -> (r: Vec<
    Vec<(String, ApiValue)>,
>)
    ensures
        rows_match(strings_view(columns@), raw@, r@),
{
    let mut out: Vec<Vec<(String, ApiValue)>> = Vec::new();
    let mut k: usize = 0;
    while k < raw.len()
        invariant
            k <= raw@.len(),
            out@.len() == k,
            forall|j: int|
                0 <= j < k ==> pairs_view((#[trigger] out@[j])@) == spec_convert_row(
                    strings_view(columns@),
                    cells_view(raw@[j]@),
                ),
        decreases raw@.len() - k,
    {
        out.push(convert_row(columns, &raw[k]));
        k = k + 1;
    }
    out
}

/// Relies on rayon's parallel iterator over a slice (an indexed parallel
/// iterator) with `map` and `collect`: the closure only applies the verified
/// `convert_row`, and collecting an indexed parallel map writes each result
/// at its input's index, so order and content equal the sequential map's.
#[verifier::external_body]
pub fn convert_rows_parallel(columns: &Vec<String>, raw: &Vec<Vec<SqlValue>>) -> (r: Vec<
    Vec<(String, ApiValue)>,
>)
    ensures
        rows_match(strings_view(columns@), raw@, r@),
{
    raw.par_iter().map(|cells| convert_row(columns, cells)).collect()
}

/// Law: running the row-conversion step sequentially and concurrently on the
/// same materialized row set produces identical row order and identical
/// content.
pub proof fn lemma_parallel_conversion_agrees(
    cols: Seq<Seq<char>>,
    raw: Seq<Vec<SqlValue>>,
    sequential: Seq<Vec<(String, ApiValue)>>,
    parallel: Seq<Vec<(String, ApiValue)>>,
)
    requires
        rows_match(cols, raw, sequential),
        rows_match(cols, raw, parallel),
    ensures
        sequential.len() == parallel.len(),
        forall|k: int|
            0 <= k < sequential.len() ==> pairs_view((#[trigger] sequential[k])@) == pairs_view(
                parallel[k]@,
            ),
{
}

/// One query's result: the column names captured once from the prepared
/// statement, and every row as a generic object keyed by those names in the
/// same order.
#[derive(Debug)]
pub struct QueryOutput {
    pub columns: Vec<String>,
    pub rows: Vec<Vec<(String, ApiValue)>>,
}

impl QueryOutput {
    /// Row/column alignment: every row has exactly as many entries as there
    /// are columns, and the entry at position `i` is keyed by `columns[i]`.
    pub open spec fn aligned(self) -> bool {
        forall|k: int|
            0 <= k < self.rows@.len() ==> {
                &&& (#[trigger] self.rows@[k])@.len() == self.columns@.len()
                &&& forall|i: int|
                    0 <= i < self.columns@.len() ==> (#[trigger] self.rows@[k]@[i]).0@
                        == self.columns@[i]@
            }
    }
}

/// Executes `sql` verbatim against the database behind `pool` and converts
/// the materialized rows in order. Any statement the engine accepts runs,
/// data-modifying ones too.
pub fn execute(pool: &mut PoolHandle, sql: &str) -> (r: Result<QueryOutput, QueryError>)
    ensures
        r matches Ok(out) ==> out.aligned(),
{
    let (columns, raw) = match run_query(pool, sql) {
        Ok(cr) => cr,
        Err(e) => {
            return Err(e);
        },
    };
    let rows = convert_rows_parallel(&columns, &raw);
    let out = QueryOutput { columns, rows };
    proof {
        assert forall|k: int| 0 <= k < out.rows@.len() implies {
            &&& (#[trigger] out.rows@[k])@.len() == out.columns@.len()
            &&& forall|i: int|
                0 <= i < out.columns@.len() ==> (#[trigger] out.rows@[k]@[i]).0@
                    == out.columns@[i]@
        } by {
            assert(pairs_view(out.rows@[k]@) == spec_convert_row(
                strings_view(out.columns@),
                cells_view(raw@[k]@),
            ));
            assert(cells_view(raw@[k]@).len() == strings_view(out.columns@).len());
            assert forall|i: int| 0 <= i < out.columns@.len() implies (#[trigger] out.rows@[k]@[i]).0@
                == out.columns@[i]@ by {
                assert(pairs_view(out.rows@[k]@)[i] == spec_convert_row(
                    strings_view(out.columns@),
                    cells_view(raw@[k]@),
                )[i]);
            }
        }
    }
    Ok(out)
}

} // verus!
