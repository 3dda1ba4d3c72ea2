//! The catalog store: the single table of metadata rows behind the
//! process-lifetime pool, and the trusted wrappers for the five statements
//! the catalog runs against it.
//!
//! The table's contents are modelled by `catalog_rows`: a map from the
//! integer key to the eight stored cells (name, path, size, table count,
//! favorite flag, notes, created-at text, updated-at text), in that order.
//! Each wrapper runs one statement and says what that statement does to the
//! map, as far as the engine's documentation promises it. This process is
//! taken to be the only writer of the catalog file.

use vstd::prelude::*;
use crate::sqlite::PoolHandle;
use crate::sqlite::read_cells_range;
use crate::timestamp::{ascii_chars, lex_le};
use crate::values::{cells_view, SqlValView, SqlValue};

verus! {

/// The order the listing statement returns rows in, as far as it can be
/// said over arbitrary stored cells: where both creation cells are
/// seven-bit text — all text this library writes is — the earlier row's
/// text is lexicographically no smaller. The engine sorts text by byte
/// order, which equals code-point order exactly on such text.
pub open spec fn created_desc(a: Seq<SqlValView>, b: Seq<SqlValView>) -> bool {
    match (a[6], b[6]) {
        (SqlValView::Text(sa), SqlValView::Text(sb)) => (ascii_chars(sa) && ascii_chars(sb))
            ==> lex_le(sb, sa),
        _ => true,
    }
}

/// How a catalog operation fails.
#[derive(Debug, Clone, PartialEq)]
pub enum CatalogError {
    /// No pooled connection could be borrowed: the bounded wait elapsed, or
    /// a fresh connection could not be opened in time.
    PoolExhausted,
    /// A stored timestamp failed to parse as the recognized date-time form.
    MalformedStoredTimestamp,
    /// Any other storage-engine failure, carrying the engine's message.
    Engine(String),
}

/// The contents of the catalog table of the database behind `pool`: each
/// row's eight stored cells, keyed by the row's integer id. A pool whose
/// file does not hold the table yet stands for the empty map.
pub uninterp spec fn catalog_rows(pool: PoolHandle) -> Map<i64, Seq<SqlValView>>;

/// One record's mutable and immutable fields, with the timestamps already
/// rendered to text, ready to bind to a statement.
#[derive(Debug, Clone, PartialEq)]
pub struct StoredFields {
    pub name: String,
    pub path: String,
    pub size: i64,
    pub table_count: i32,
    pub is_favorite: bool,
    pub notes: Option<String>,
    pub created_at: String,
    pub updated_at: String,
}

/// The eight cells that binding `f` to an INSERT writes: text and integers
/// pass through, the flag becomes the integer one or zero, absent notes
/// become the SQL null.
pub open spec fn fields_cells(f: StoredFields) -> Seq<SqlValView> {
    seq![
        SqlValView::Text(f.name@),
        SqlValView::Text(f.path@),
        SqlValView::Integer(f.size),
        SqlValView::Integer(f.table_count as i64),
        SqlValView::Integer(if f.is_favorite { 1i64 } else { 0i64 }),
        match f.notes {
            Some(n) => SqlValView::Text(n@),
            None => SqlValView::Null,
        },
        SqlValView::Text(f.created_at@),
        SqlValView::Text(f.updated_at@),
    ]
}

/// The cells after an UPDATE that binds `f`: every cell from `f` except the
/// stored path and the created-at text, which the statement does not touch —
/// both are set once at creation and immutable thereafter.
pub open spec fn fields_cells_for_update(f: StoredFields, old_row: Seq<SqlValView>) -> Seq<
    SqlValView,
> {
    fields_cells(f).update(1, old_row[1]).update(6, old_row[6])
}

/// Relies on `r2d2::Pool::get` and `rusqlite::Connection::execute` running
/// `CREATE TABLE IF NOT EXISTS`: brings the catalog table into being if it
/// is absent and otherwise leaves it untouched, so the contents are
/// preserved either way. The key column autoincrements, so the engine never
/// hands an id out twice.
#[verifier::external_body]
pub fn create_catalog_table(pool: &mut PoolHandle) -> (r: Result<(), CatalogError>)
    ensures
        catalog_rows(*final(pool)) == catalog_rows(*old(pool)),
{
    let conn = pool.pool.get().map_err(|_| CatalogError::PoolExhausted)?;
    conn.execute(
        "CREATE TABLE IF NOT EXISTS database_metadata (id INTEGER PRIMARY KEY AUTOINCREMENT, name TEXT NOT NULL, path TEXT NOT NULL, size INTEGER NOT NULL, table_count INTEGER NOT NULL, is_favorite BOOLEAN NOT NULL DEFAULT 0, notes TEXT, created_at TEXT NOT NULL, updated_at TEXT NOT NULL)",
        [],
    ).map_err(|e| CatalogError::Engine(format!("{}", e)))?;
    Ok(())
}

/// Relies on `r2d2::Pool::get`, `rusqlite::Connection::execute` running an
/// `INSERT`, and `Connection::last_insert_rowid`: adds exactly one row whose
/// cells are `f`'s, under a positive key above every key in use — the table
/// autoincrements its key, so the engine picks one larger than any it ever
/// assigned, or fails. A failed statement adds nothing.
#[verifier::external_body]
pub fn insert_row(pool: &mut PoolHandle, f: &StoredFields) -> (r: Result<i64, CatalogError>)
    ensures
        r matches Ok(id) ==> {
            &&& !catalog_rows(*old(pool)).dom().contains(id)
            &&& 1 <= id
            &&& forall|e: i64| catalog_rows(*old(pool)).dom().contains(e) ==> e < id
            &&& catalog_rows(*final(pool)) == catalog_rows(*old(pool)).insert(
                id,
                fields_cells(*f),
            )
        },
        r is Err ==> catalog_rows(*final(pool)) == catalog_rows(*old(pool)),
{
    let conn = pool.pool.get().map_err(|_| CatalogError::PoolExhausted)?;
    conn.execute(
        "INSERT INTO database_metadata (name, path, size, table_count, is_favorite, notes, created_at, updated_at) VALUES (?, ?, ?, ?, ?, ?, ?, ?)",
        (&f.name, &f.path, &f.size, &f.table_count, &f.is_favorite, &f.notes, &f.created_at, &f.updated_at),
    ).map_err(|e| CatalogError::Engine(format!("{}", e)))?;
    Ok(conn.last_insert_rowid())
}

/// Relies on `r2d2::Pool::get` and `rusqlite::Connection::execute` running
/// an `UPDATE ... WHERE id = ?`: rewrites every cell but the stored path and
/// the created-at text of the row under `id`, if there is one, and does
/// nothing otherwise. A failed statement changes nothing.
#[verifier::external_body]
pub fn update_row(pool: &mut PoolHandle, id: i64, f: &StoredFields) -> (r: Result<
    (),
    CatalogError,
>)
    ensures
        r is Ok ==> catalog_rows(*final(pool)) == if catalog_rows(*old(pool)).dom().contains(id) {
            catalog_rows(*old(pool)).insert(
                id,
                fields_cells_for_update(*f, catalog_rows(*old(pool))[id]),
            )
        } else {
            catalog_rows(*old(pool))
        },
        r is Err ==> catalog_rows(*final(pool)) == catalog_rows(*old(pool)),
{
    let conn = pool.pool.get().map_err(|_| CatalogError::PoolExhausted)?;
    conn.execute(
        "UPDATE database_metadata SET name = ?, size = ?, table_count = ?, is_favorite = ?, notes = ?, updated_at = ? WHERE id = ?",
        (&f.name, &f.size, &f.table_count, &f.is_favorite, &f.notes, &f.updated_at, &id),
    ).map_err(|e| CatalogError::Engine(format!("{}", e)))?;
    Ok(())
}

/// Relies on `r2d2::Pool::get` and `rusqlite::Connection::execute` running
/// `DELETE FROM ... WHERE id = ?`: removes the row under `id` if there is
/// one; removing an absent id changes nothing and is no error. A failed
/// statement changes nothing.
#[verifier::external_body]
pub fn delete_row(pool: &mut PoolHandle, id: i64) -> (r: Result<(), CatalogError>)
    ensures
        r is Ok ==> catalog_rows(*final(pool)) == catalog_rows(*old(pool)).remove(id),
        r is Err ==> catalog_rows(*final(pool)) == catalog_rows(*old(pool)),
{
    let conn = pool.pool.get().map_err(|_| CatalogError::PoolExhausted)?;
    conn.execute("DELETE FROM database_metadata WHERE id = ?", (&id,))
        .map_err(|e| CatalogError::Engine(format!("{}", e)))?;
    Ok(())
}

/// Relies on `r2d2::Pool::get`, `rusqlite::Connection::prepare` and
/// `Statement::query_map` running a `SELECT ... WHERE id = ?`: the eight
/// stored cells of the row under `id`, or nothing when no row matches. The
/// row callback applies `read_cells_range`, whose contract gives the width.
#[verifier::external_body]
pub fn select_by_id(pool: &PoolHandle, id: i64) -> (r: Result<
    Option<Vec<SqlValue>>,
    CatalogError,
>)
    ensures
        r matches Ok(Some(cells)) ==> {
            &&& catalog_rows(*pool).dom().contains(id)
            &&& cells_view(cells@) == catalog_rows(*pool)[id]
        },
        r matches Ok(None) ==> !catalog_rows(*pool).dom().contains(id),
        r matches Err(e) ==> (e is PoolExhausted || e is Engine),
{
    let conn = pool.pool.get().map_err(|_| CatalogError::PoolExhausted)?;
    let mut stmt = conn.prepare(
        "SELECT name, path, size, table_count, is_favorite, notes, created_at, updated_at FROM database_metadata WHERE id = ?",
    ).map_err(|e| CatalogError::Engine(format!("{}", e)))?;
    let mut mapped = stmt.query_map((&id,), |row| read_cells_range(row, 0, 8))
        .map_err(|e| CatalogError::Engine(format!("{}", e)))?;
    match mapped.next() {
        None => Ok(None),
        Some(Ok(cells)) => Ok(Some(cells)),
        Some(Err(e)) => Err(CatalogError::Engine(format!("{}", e))),
    }
}

/// Relies on `r2d2::Pool::get`, `rusqlite::Connection::prepare` and
/// `Statement::query_map` running `SELECT ... ORDER BY created_at DESC`:
/// every row of the catalog table, its key paired with its eight cells, each
/// key exactly once. The row callback applies `read_cells_range` for the
/// cells and `rusqlite::Row::get` for the key.
#[verifier::external_body]
pub fn select_all(pool: &PoolHandle) -> (r: Result<Vec<(i64, Vec<SqlValue>)>, CatalogError>)
    ensures
        r matches Ok(rows) ==> {
            &&& forall|k: int|
                0 <= k < rows@.len() ==> {
                    &&& catalog_rows(*pool).dom().contains((#[trigger] rows@[k]).0)
                    &&& cells_view(rows@[k].1@) == catalog_rows(*pool)[rows@[k].0]
                }
            &&& forall|k1: int, k2: int|
                0 <= k1 < k2 < rows@.len() ==> (#[trigger] rows@[k1]).0 != (#[trigger] rows@[k2]).0
            &&& forall|id: i64|
                catalog_rows(*pool).dom().contains(id) ==> exists|k: int|
                    0 <= k < rows@.len() && (#[trigger] rows@[k]).0 == id
            &&& forall|k1: int, k2: int|
                0 <= k1 < k2 < rows@.len() ==> created_desc(
                    cells_view((#[trigger] rows@[k1]).1@),
                    cells_view((#[trigger] rows@[k2]).1@),
                )
        },
{
    let conn = pool.pool.get().map_err(|_| CatalogError::PoolExhausted)?;
    let mut stmt = conn.prepare(
        "SELECT id, name, path, size, table_count, is_favorite, notes, created_at, updated_at FROM database_metadata ORDER BY created_at DESC",
    ).map_err(|e| CatalogError::Engine(format!("{}", e)))?;
    let mapped = stmt.query_map([], |row| {
        let id: i64 = row.get(0)?;
        let cells = read_cells_range(row, 1, 9)?;
        Ok((id, cells))
    }).map_err(|e| CatalogError::Engine(format!("{}", e)))?;
    mapped.collect::<Result<Vec<(i64, Vec<SqlValue>)>, _>>().map_err(
        |e| CatalogError::Engine(format!("{}", e)),
    )
}

} // verus!
