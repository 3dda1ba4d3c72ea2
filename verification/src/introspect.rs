//! The schema introspector: lists a database's tables and reflects one
//! table's column metadata in declaration order.

use vstd::prelude::*;
use vstd::string::StringExecFns;
use crate::sqlite::{
    db_columns, db_tables, probe_columns, probe_tables, strings_view, PoolHandle, QueryError,
};
use crate::values::{cells_view, SqlValView, SqlValue};

verus! {

/// One column of a table, as the engine's reflection reports it.
#[derive(Debug, Clone, PartialEq)]
pub struct ColumnDescriptor {
    /// The column's position in declaration order.
    pub position: i64,
    pub name: String,
    pub declared_type: String,
    pub not_null: bool,
    pub default_value: Option<String>,
    pub is_primary_key: bool,
}

/// The tables of the database behind `pool`, in the engine's order — not
/// guaranteed sorted; callers must not assume alphabetical order.
pub fn list_tables(pool: &PoolHandle) -> (r: Result<Vec<String>, QueryError>)
    ensures
        r matches Ok(names) ==> strings_view(names@) == db_tables(*pool),
{
    probe_tables(pool)
}

/// The number of tables of the database behind `pool`.
pub fn count_tables(pool: &PoolHandle) -> (r: Result<i32, QueryError>)
    ensures
        r matches Ok(n) ==> n as int == db_tables(*pool).len(),
{
    let names = match list_tables(pool) {
        Ok(names) => names,
        Err(e) => {
            return Err(e);
        },
    };
    if names.len() > 0x7fff_ffffusize {
        return Err(
            QueryError::Exec(String::from_str("table count does not fit a 32-bit counter")),
        );
    }
    proof {
        assert(names@.len() == strings_view(names@).len());
    }
    Ok(names.len() as i32)
}

/// Whether a reflection row has the shape the engine documents for column
/// metadata: position, name, declared type, not-null flag, default value,
/// primary-key flag.
pub open spec fn column_shape_ok(cells: Seq<SqlValView>) -> bool {
    &&& cells.len() == 6
    &&& cells[0] is Integer
    &&& cells[1] is Text
    &&& cells[2] is Text
    &&& cells[3] is Integer
    &&& (cells[4] is Null || cells[4] is Text)
    &&& cells[5] is Integer
}

/// How a decoded descriptor corresponds to the reflection row it came from.
pub open spec fn column_matches(d: ColumnDescriptor, cells: Seq<SqlValView>) -> bool {
    &&& cells.len() == 6
    &&& cells[0] == SqlValView::Integer(d.position)
    &&& cells[1] == SqlValView::Text(d.name@)
    &&& cells[2] == SqlValView::Text(d.declared_type@)
    &&& (cells[3] matches SqlValView::Integer(v) && (d.not_null <==> v != 0))
    &&& match d.default_value {
        Some(s) => cells[4] == SqlValView::Text(s@),
        None => cells[4] is Null,
    }
    &&& (cells[5] matches SqlValView::Integer(v) && (d.is_primary_key <==> v != 0))
}

/// Decodes one reflection row into a column descriptor. Exactly the rows of
/// the documented shape decode.
pub fn decode_column(cells: &Vec<SqlValue>) -> (r: Result<ColumnDescriptor, QueryError>)
    ensures
        r matches Ok(d) ==> column_matches(d, cells_view(cells@)),
        column_shape_ok(cells_view(cells@)) <==> r is Ok,
{
    if cells.len() != 6 {
        return Err(shape_error());
    }
    let position: i64 = match &cells[0] {
        SqlValue::Integer(v) => *v,
        _ => {
            return Err(shape_error());
        },
    };
    let name: String = match &cells[1] {
        SqlValue::Text(s) => s.clone(),
        _ => {
            return Err(shape_error());
        },
    };
    let declared_type: String = match &cells[2] {
        SqlValue::Text(s) => s.clone(),
        _ => {
            return Err(shape_error());
        },
    };
    let not_null: bool = match &cells[3] {
        SqlValue::Integer(v) => *v != 0,
        _ => {
            return Err(shape_error());
        },
    };
    let default_value: Option<String> = match &cells[4] {
        SqlValue::Null => None,
        SqlValue::Text(s) => Some(s.clone()),
        _ => {
            return Err(shape_error());
        },
    };
    let is_primary_key: bool = match &cells[5] {
        SqlValue::Integer(v) => *v != 0,
        _ => {
            return Err(shape_error());
        },
    };
    Ok(ColumnDescriptor { position, name, declared_type, not_null, default_value, is_primary_key })
}

/// The error for a reflection row of an unexpected shape.
fn shape_error() -> (r: QueryError)
    ensures
        r is Exec,
{
    QueryError::Exec(String::from_str("column metadata row has an unexpected shape"))
}

/// Decodes every reflection row, in order. Succeeds exactly when every row
/// has the documented shape.
pub fn decode_columns(raw: &Vec<Vec<SqlValue>>) -> (r: Result<Vec<ColumnDescriptor>, QueryError>)
    ensures
        r matches Ok(v) ==> {
            &&& v@.len() == raw@.len()
            &&& forall|k: int|
                0 <= k < raw@.len() ==> column_matches(#[trigger] v@[k], cells_view(raw@[k]@))
        },
        (forall|k: int| 0 <= k < raw@.len() ==> column_shape_ok(cells_view((#[trigger] raw@[k])@)))
            <==> r is Ok,
{
    let mut out: Vec<ColumnDescriptor> = Vec::new();
    let mut k: usize = 0;
    while k < raw.len()
        invariant
            k <= raw@.len(),
            out@.len() == k,
            forall|j: int|
                0 <= j < k ==> column_matches(#[trigger] out@[j], cells_view(raw@[j]@)),
            forall|j: int| 0 <= j < k ==> column_shape_ok(cells_view((#[trigger] raw@[j])@)),
        decreases raw@.len() - k,
    {
        match decode_column(&raw[k]) {
            Ok(d) => out.push(d),
            Err(e) => {
                proof {
                    assert(!column_shape_ok(cells_view(raw@[k as int]@)));
                }
                return Err(e);
            },
        }
        k = k + 1;
    }
    Ok(out)
}

/// One table's column descriptors: one per reflection row, in declaration
/// order, each matching its row under `decode_column`'s exact contract. The
/// table name is interpolated into the reflection statement as raw text —
/// the engine's reflection cannot bind the target name as a parameter — so
/// the name must be trusted input.
pub fn table_schema(pool: &PoolHandle, table: &str) -> (r: Result<
    Vec<ColumnDescriptor>,
    QueryError,
>)
    ensures
        r matches Ok(v) ==> {
            &&& v@.len() == db_columns(*pool, table@).len()
            &&& forall|k: int|
                0 <= k < v@.len() ==> column_matches(
                    #[trigger] v@[k],
                    db_columns(*pool, table@)[k],
                )
        },
{
    let raw = match probe_columns(pool, table) {
        Ok(raw) => raw,
        Err(e) => {
            return Err(e);
        },
    };
    let r = decode_columns(&raw);
    proof {
        assert forall|k: int| 0 <= k < raw@.len() implies cells_view((#[trigger] raw@[k])@)
            == db_columns(*pool, table@)[k] by {
            assert(raw@.map_values(|v: Vec<SqlValue>| cells_view(v@))[k] == cells_view(raw@[k]@));
        }
    }
    r
}

} // verus!
