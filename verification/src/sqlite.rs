//! The boundary to the embedded SQL engine and its connection pool: type
//! declarations for the outside crates, and the trusted wrappers through
//! which every statement runs.
//!
//! A pool handle stands for one database file. What that database's system
//! catalog lists is named by `db_tables`, so that the schema introspector and
//! the upload validator can be proved to agree with one another. The single
//! writer of these files is this process; the model does not track changes
//! made to a file from outside it.

use vstd::prelude::*;
use crate::values::{cells_view, SqlValView, SqlValue};

verus! {

#[verifier::external_type_specification]
#[verifier::external_body]
pub struct ExConnection(rusqlite::Connection);

#[verifier::external_type_specification]
#[verifier::external_body]
pub struct ExSqliteError(rusqlite::Error);

#[verifier::external_type_specification]
#[verifier::external_body]
pub struct ExRow<'a>(rusqlite::Row<'a>);

/// A reusable, thread-safe handle to a set of live connections against one
/// database file. The pool inside is opaque to the verifier: everything the
/// library knows of it flows through the trusted wrappers below.
#[verifier::external_body]
pub struct PoolHandle {
    pub(crate) pool: r2d2::Pool<r2d2_sqlite::SqliteConnectionManager>,
}

/// How a query or introspection call against an opened database fails.
#[derive(Debug, Clone, PartialEq)]
pub enum QueryError {
    /// No pooled connection could be borrowed: the bounded wait elapsed, or
    /// a fresh connection could not be opened in time.
    PoolExhausted,
    /// The statement did not prepare: malformed SQL, or a reference to a
    /// nonexistent table or column. Carries the engine's message.
    Prepare(String),
    /// The prepared statement failed while running. Carries the engine's
    /// message.
    Exec(String),
}

/// The names of the tables that the database behind `pool` lists in its
/// system catalog, in the engine's order.
pub uninterp spec fn db_tables(pool: PoolHandle) -> Seq<Seq<char>>;

/// The column-metadata rows that the engine's reflection reports for `table`
/// in the database behind `pool`: one row per column, in declaration order.
pub uninterp spec fn db_columns(pool: PoolHandle, table: Seq<char>) -> Seq<Seq<SqlValView>>;

/// The views of a sequence of strings.
pub open spec fn strings_view(v: Seq<String>) -> Seq<Seq<char>> {
    v.map_values(|s: String| s@)
}

/// Relies on `r2d2_sqlite::SqliteConnectionManager::file` and
/// `r2d2::Pool::builder`: a fresh pool bound to the database file at `path`,
/// with a bounded checkout wait so that a borrow fails past the timeout
/// rather than blocking indefinitely. Nothing is known of the file's
/// contents.
#[verifier::external_body]
pub fn open_pool(path: &str) -> (r: Result<PoolHandle, String>) {
    let manager = r2d2_sqlite::SqliteConnectionManager::file(path);
    let built = r2d2::Pool::builder()
        .connection_timeout(std::time::Duration::from_secs(3))
        .build(manager);
    match built {
        Ok(pool) => Ok(PoolHandle { pool }),
        Err(e) => Err(format!("{}", e)),
    }
}

/// Relies on `rusqlite::Connection::open`: a plain, unpooled connection to
/// the database file at `path`. Nothing is known of the file's contents.
#[verifier::external_body]
pub fn open_connection(path: &str) -> (r: Result<rusqlite::Connection, rusqlite::Error>) {
    rusqlite::Connection::open(path)
}

/// Relies on `rusqlite::Row::get_ref`: the cell at column `i` of a result
/// row, carried over as an owned value (a real as its bit pattern, text
/// decoded from its bytes).
#[verifier::external_body]
fn cell_value(row: &rusqlite::Row<'_>, i: usize) -> (r: Result<SqlValue, rusqlite::Error>) {
    match row.get_ref(i) {
        Ok(rusqlite::types::ValueRef::Null) => Ok(SqlValue::Null),
        Ok(rusqlite::types::ValueRef::Integer(n)) => Ok(SqlValue::Integer(n)),
        Ok(rusqlite::types::ValueRef::Real(x)) => Ok(SqlValue::Real(x.to_bits())),
        Ok(rusqlite::types::ValueRef::Text(t)) => {
            Ok(SqlValue::Text(String::from_utf8_lossy(t).into_owned()))
        },
        Ok(rusqlite::types::ValueRef::Blob(b)) => Ok(SqlValue::Blob(b.to_vec())),
        Err(e) => Err(e),
    }
}

/// Reads the cells of a result row from column `start` up to column `end`.
pub fn read_cells_range(row: &rusqlite::Row<'_>, start: usize, end: usize) -> (r: Result<
    Vec<SqlValue>,
    rusqlite::Error,
>)
    requires
        start <= end,
    ensures
        r matches Ok(v) ==> v@.len() == end - start,
{
    let mut v: Vec<SqlValue> = Vec::new();
    let mut i: usize = start;
    while i < end
        invariant
            start <= i <= end,
            v@.len() == i - start,
        decreases end - i,
    {
        match cell_value(row, i) {
            Ok(c) => v.push(c),
            Err(e) => {
                return Err(e);
            },
        }
        i = i + 1;
    }
    Ok(v)
}

/// Relies on `r2d2::Pool::get`, `rusqlite::Connection::prepare`,
/// `Statement::column_names` and `Statement::query_map`: runs `sql` verbatim
/// and materializes the column names once and every result row in the
/// engine's order. Each row is as wide as the column list, by the contract
/// of `read_cells_range`, which the row callback applies. Statements that modify
/// the database run too, so nothing is assumed of the pool's contents
/// afterward.
#[verifier::external_body]
pub fn run_query(pool: &mut PoolHandle, sql: &str) -> (r: Result<
    (Vec<String>, Vec<Vec<SqlValue>>),
    QueryError,
>)
    ensures
        r matches Ok(out) ==> forall|k: int|
            0 <= k < out.1@.len() ==> (#[trigger] out.1@[k])@.len() == out.0@.len(),
{
    let conn = pool.pool.get().map_err(|_| QueryError::PoolExhausted)?;
    let mut stmt = conn.prepare(sql).map_err(|e| QueryError::Prepare(format!("{}", e)))?;
    let columns: Vec<String> = stmt.column_names().into_iter().map(String::from).collect();
    let n = columns.len();
    let mapped = stmt
        .query_map([], |row| read_cells_range(row, 0, n))
        .map_err(|e| QueryError::Exec(format!("{}", e)))?;
    let rows = mapped
        .collect::<Result<Vec<Vec<SqlValue>>, _>>()
        .map_err(|e| QueryError::Exec(format!("{}", e)))?;
    Ok((columns, rows))
}

/// Relies on `r2d2::Pool::get`, `rusqlite::Connection::prepare` and
/// `Statement::query_map` running `PRAGMA table_info` on `table`: the
/// engine's column-metadata rows, one per column, in declaration order. The
/// target name goes into the statement as raw text — the reflection cannot
/// bind it as a parameter — so the name must be trusted input. The row
/// callback applies `read_cells_range`.
#[verifier::external_body]
pub fn probe_columns(pool: &PoolHandle, table: &str) -> (r: Result<Vec<Vec<SqlValue>>, QueryError>)
    ensures
        r matches Ok(raw) ==> raw@.map_values(|v: Vec<SqlValue>| cells_view(v@)) == db_columns(
            *pool,
            table@,
        ),
{
    let conn = pool.pool.get().map_err(|_| QueryError::PoolExhausted)?;
    let mut stmt = conn
        .prepare(&format!("PRAGMA table_info({})", table))
        .map_err(|e| QueryError::Prepare(format!("{}", e)))?;
    let n = stmt.column_count();
    let mapped = stmt
        .query_map([], |row| read_cells_range(row, 0, n))
        .map_err(|e| QueryError::Exec(format!("{}", e)))?;
    mapped
        .collect::<Result<Vec<Vec<SqlValue>>, _>>()
        .map_err(|e| QueryError::Exec(format!("{}", e)))
}

/// Relies on `r2d2::Pool::get`, `rusqlite::Connection::prepare` and
/// `Statement::query_map` running
/// `SELECT name FROM sqlite_master WHERE type='table'`: the names of the
/// database's tables, in the engine's order.
#[verifier::external_body]
pub fn probe_tables(pool: &PoolHandle) -> (r: Result<Vec<String>, QueryError>)
    ensures
        r matches Ok(names) ==> strings_view(names@) == db_tables(*pool),
{
    let conn = pool.pool.get().map_err(|_| QueryError::PoolExhausted)?;
    let mut stmt = conn
        .prepare("SELECT name FROM sqlite_master WHERE type='table'")
        .map_err(|e| QueryError::Prepare(format!("{}", e)))?;
    let mapped = stmt
        .query_map([], |row| row.get::<_, String>(0))
        .map_err(|e| QueryError::Exec(format!("{}", e)))?;
    mapped.collect::<Result<Vec<String>, _>>().map_err(|e| QueryError::Exec(format!("{}", e)))
}

} // verus!
