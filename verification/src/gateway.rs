//! The request-level operations behind the HTTP surface, with transport
//! stripped away: each takes plain values and returns the payload or an
//! `ApiError` carrying the status code and the error message the route
//! answers with. The HTTP layer only moves bytes in and out.

use vstd::prelude::*;
use vstd::string::StringExecFns;
use crate::catalog::CatalogError;
use crate::connection::DbConnection;
use crate::database_metadata::{record_cells, record_cells_for_update, record_matches, DatabaseMetadata};
use crate::introspect::{count_tables, table_schema, ColumnDescriptor};
use crate::query::{execute, QueryOutput};
use crate::sqlite::{db_tables, strings_view, PoolHandle, QueryError};
use crate::timestamp::{format_rfc3339, parsed_ts, rfc3339_of, ts_in_range};
use crate::upload::{
    acceptable_content_type, size_ok, spec_storage_filename, storage_filename, valid_content_type,
    MAX_FILE_SIZE, MIN_FILE_SIZE,
};
use crate::values::SqlValView;

verus! {

/// An error response: the status code and the `error` string of its JSON
/// body.
#[derive(Debug, Clone, PartialEq)]
pub struct ApiError {
    pub status: u16,
    pub message: String,
}

/// The canonical not-found response: status 404 with the message
/// `Database not found`.
pub open spec fn is_not_found(e: ApiError) -> bool {
    e.status == 404 && e.message@ == "Database not found"@
}

/// Builds an error response.
fn api_error(status: u16, msg: &str) -> (r: ApiError)
    ensures
        r.status == status,
        r.message@ == msg@,
{
    ApiError { status, message: String::from_str(msg) }
}

/// The not-found response every id-addressed route answers with.
fn not_found() -> (r: ApiError)
    ensures
        is_not_found(r),
{
    api_error(404, "Database not found")
}

/// Maps a catalog failure to the storage-error response; the engine's own
/// detail stays server-side.
fn map_catalog_error(_e: CatalogError, msg: &str) -> (r: ApiError)
    ensures
        r.status == 500,
{
    api_error(500, msg)
}

/// Law: the not-found responses of any two id-addressed routes agree, status
/// and message both.
pub proof fn lemma_not_found_consistent(e1: ApiError, e2: ApiError)
    requires
        is_not_found(e1),
        is_not_found(e2),
    ensures
        e1.status == e2.status,
        e1.message@ == e2.message@,
{
}

/// The liveness payload.
pub struct HealthStatus {
    pub status: String,
    pub timestamp: String,
}

/// The liveness answer: `ok`, stamped with the current time.
pub fn health_check(now: i64) -> (r: HealthStatus)
    requires
        ts_in_range(now),
    ensures
        r.status@ == "ok"@,
        r.timestamp@ == rfc3339_of(now),
{
    HealthStatus { status: String::from_str("ok"), timestamp: format_rfc3339(now) }
}

/// Lists the catalog; an empty catalog is an empty list, never an error.
pub fn list_databases(db: &DbConnection) -> (r: Result<Vec<DatabaseMetadata>, ApiError>)
    ensures
        r matches Ok(v) ==> {
            &&& forall|k: int|
                0 <= k < v@.len() ==> {
                    &&& (#[trigger] v@[k]).id is Some
                    &&& db.catalog().dom().contains(v@[k].id->Some_0)
                    &&& record_matches(v@[k], v@[k].id->Some_0, db.catalog()[v@[k].id->Some_0])
                }
            &&& forall|id: i64|
                db.catalog().dom().contains(id) ==> exists|k: int|
                    0 <= k < v@.len() && (#[trigger] v@[k]).id == Some(id)
        },
        r matches Err(e) ==> e.status == 500,
{
    match DatabaseMetadata::list(db) {
        Ok(v) => Ok(v),
        Err(e) => Err(map_catalog_error(e, "Failed to list databases")),
    }
}

/// Fetches one record. Only an unknown id is answered with the canonical
/// 404; storage failures are a 500.
pub fn get_database(db: &DbConnection, id: i64) -> (r: Result<DatabaseMetadata, ApiError>)
    ensures
        r matches Ok(m) ==> db.catalog().dom().contains(id) && record_matches(
            m,
            id,
            db.catalog()[id],
        ),
        r matches Err(e) ==> (is_not_found(e) && !db.catalog().dom().contains(id)) || e.status
            == 500,
        !db.catalog().dom().contains(id) ==> !(r is Ok),
{
    match DatabaseMetadata::find_by_id(db, id) {
        Ok(Some(m)) => Ok(m),
        Ok(None) => Err(not_found()),
        Err(e) => Err(map_catalog_error(e, "Failed to find database")),
    }
}

/// A partial update of the user-mutable fields: absent fields are left as
/// they are.
#[derive(Debug, Clone, PartialEq)]
pub struct UpdateRequest {
    pub name: Option<String>,
    pub notes: Option<String>,
    pub is_favorite: Option<bool>,
}

/// The larger of two timestamps.
fn max_ts(a: i64, b: i64) -> (r: i64)
    ensures
        r == if a >= b {
            a
        } else {
            b
        },
{
    if a >= b {
        a
    } else {
        b
    }
}

/// Applies a partial update to the record under `id`: mutable fields from
/// the request, identity and creation stamp untouched, the update stamp
/// advanced. An unknown id is answered with the canonical 404.
pub fn update_database(db: &mut DbConnection, id: i64, patch: UpdateRequest, now: i64) -> (r:
    Result<DatabaseMetadata, ApiError>)
    requires
        ts_in_range(now),
    ensures
        final(db).dir() == old(db).dir(),
        r matches Err(e) ==> final(db).catalog() == old(db).catalog() && ((is_not_found(e) && !old(
            db,
        ).catalog().dom().contains(id)) || e.status == 500),
        !old(db).catalog().dom().contains(id) ==> !(r is Ok),
        r matches Ok(out) ==> {
            &&& old(db).catalog().dom().contains(id)
            &&& out.id == Some(id)
            &&& (old(db).catalog()[id][6] matches SqlValView::Text(s) && parsed_ts(s) == Some(
                out.created_at,
            ))
            &&& (old(db).catalog()[id][7] matches SqlValView::Text(s) && (parsed_ts(s)
                matches Some(u) && out.updated_at >= u))
            &&& out.updated_at >= now
            &&& out.wf()
            &&& final(db).catalog() == old(db).catalog().insert(
                id,
                record_cells_for_update(out, old(db).catalog()[id]),
            )
            &&& match patch.name {
                Some(n) => out.name == n,
                None => old(db).catalog()[id][0] == SqlValView::Text(out.name@),
            }
            &&& match patch.notes {
                Some(n) => out.notes == Some(n),
                None => match out.notes {
                    Some(t) => old(db).catalog()[id][5] == SqlValView::Text(t@),
                    None => old(db).catalog()[id][5] is Null,
                },
            }
            &&& match patch.is_favorite {
                Some(f) => out.is_favorite == f,
                None => (old(db).catalog()[id][4] matches SqlValView::Integer(v) && (
                out.is_favorite <==> v != 0)),
            }
            &&& old(db).catalog()[id][1] == SqlValView::Text(out.path@)
            &&& old(db).catalog()[id][2] == SqlValView::Integer(out.size)
            &&& (old(db).catalog()[id][3] matches SqlValView::Integer(v) && v
                == out.table_count as i64)
        },
{
    let mut rec = match DatabaseMetadata::find_by_id(db, id) {
        Ok(Some(m)) => m,
        Ok(None) => {
            return Err(not_found());
        },
        Err(e) => {
            return Err(map_catalog_error(e, "Failed to find database"));
        },
    };
    match patch.name {
        Some(n) => {
            rec.name = n;
        },
        None => {},
    }
    match patch.notes {
        Some(n) => {
            rec.notes = Some(n);
        },
        None => {},
    }
    match patch.is_favorite {
        Some(f) => {
            rec.is_favorite = f;
        },
        None => {},
    }
    let stamp = max_ts(now, max_ts(rec.created_at, rec.updated_at));
    match rec.save(db, stamp) {
        Ok(out) => Ok(out),
        Err(e) => Err(map_catalog_error(e, "Failed to update database")),
    }
}

/// Removes the record under `id` and hands back the stored file's path for
/// the caller to unlink; a failure to remove the file must not block the
/// metadata deletion, so the unlink comes after. An unknown id is answered
/// with the canonical 404.
pub fn delete_database(db: &mut DbConnection, id: i64) -> (r: Result<String, ApiError>)
    ensures
        final(db).dir() == old(db).dir(),
        r matches Ok(path) ==> {
            &&& old(db).catalog().dom().contains(id)
            &&& old(db).catalog()[id][1] == SqlValView::Text(path@)
            &&& final(db).catalog() == old(db).catalog().remove(id)
        },
        r matches Err(e) ==> final(db).catalog() == old(db).catalog() && ((is_not_found(e) && !old(
            db,
        ).catalog().dom().contains(id)) || e.status == 500),
        !old(db).catalog().dom().contains(id) ==> !(r is Ok),
{
    let rec = match DatabaseMetadata::find_by_id(db, id) {
        Ok(Some(m)) => m,
        Ok(None) => {
            return Err(not_found());
        },
        Err(e) => {
            return Err(map_catalog_error(e, "Failed to find database"));
        },
    };
    match DatabaseMetadata::delete(db, id) {
        Ok(()) => Ok(rec.path),
        Err(e) => Err(map_catalog_error(e, "Failed to delete database metadata")),
    }
}

/// The message a successful deletion answers with.
pub fn deleted_message() -> (r: String)
    ensures
        r@ == "Database deleted successfully"@,
{
    String::from_str("Database deleted successfully")
}

/// Lists the tables of the database under `id`: looks the record up, opens a
/// fresh pool on its stored path, and reads the system catalog. An unknown
/// id is answered with the canonical 404; engine failures with 500.
pub fn get_tables(db: &DbConnection, id: i64) -> (r: Result<Vec<String>, ApiError>)
    ensures
        r matches Ok(names) ==> db.catalog().dom().contains(id),
        r matches Err(e) ==> (is_not_found(e) && !db.catalog().dom().contains(id)) || e.status
            == 500,
        !db.catalog().dom().contains(id) ==> !(r is Ok),
{
    let rec = match DatabaseMetadata::find_by_id(db, id) {
        Ok(Some(m)) => m,
        Ok(None) => {
            return Err(not_found());
        },
        Err(e) => {
            return Err(map_catalog_error(e, "Failed to find database"));
        },
    };
    let pool = match db.get_database_pool(rec.path.as_str()) {
        Ok(p) => p,
        Err(e) => {
            return Err(map_catalog_error(e, "Failed to open database"));
        },
    };
    match crate::introspect::list_tables(&pool) {
        Ok(names) => Ok(names),
        Err(e) => Err(map_query_error(e)),
    }
}

/// Maps a query failure to its response: pool exhaustion and execution
/// failures keep their fixed messages; a prepare failure echoes the engine's
/// text, the one diagnostic the surface passes through.
fn map_query_error(e: QueryError) -> (r: ApiError)
    ensures
        r.status == 500,
        e matches QueryError::Prepare(msg) ==> r.message@ == "Failed to prepare query: "@ + msg@,
{
    match e {
        QueryError::PoolExhausted => api_error(500, "Failed to open database"),
        QueryError::Prepare(msg) => {
            let mut m = String::from_str("Failed to prepare query: ");
            m.append(msg.as_str());
            ApiError { status: 500, message: m }
        },
        QueryError::Exec(_) => api_error(500, "Failed to execute query"),
    }
}

/// Reflects one table's columns for the database under `id`. An unknown id
/// is answered with the canonical 404; engine failures with 500.
pub fn get_table_schema(db: &DbConnection, id: i64, table: &str) -> (r: Result<
    Vec<ColumnDescriptor>,
    ApiError,
>)
    ensures
        r matches Ok(cols) ==> db.catalog().dom().contains(id),
        r matches Err(e) ==> (is_not_found(e) && !db.catalog().dom().contains(id)) || e.status
            == 500,
        !db.catalog().dom().contains(id) ==> !(r is Ok),
{
    let rec = match DatabaseMetadata::find_by_id(db, id) {
        Ok(Some(m)) => m,
        Ok(None) => {
            return Err(not_found());
        },
        Err(e) => {
            return Err(map_catalog_error(e, "Failed to find database"));
        },
    };
    let pool = match db.get_database_pool(rec.path.as_str()) {
        Ok(p) => p,
        Err(e) => {
            return Err(map_catalog_error(e, "Failed to open database"));
        },
    };
    match table_schema(&pool, table) {
        Ok(cols) => Ok(cols),
        Err(e) => Err(map_query_error(e)),
    }
}

/// Runs caller-supplied SQL against the database under `id`. A missing query
/// is a 400; an unknown id the canonical 404; prepare and execution failures
/// a 500. A successful result is row/column aligned.
pub fn execute_query(db: &DbConnection, id: i64, sql: Option<&str>) -> (r: Result<
    QueryOutput,
    ApiError,
>)
    ensures
        sql is None ==> (r matches Err(e) && e.status == 400 && e.message@
            == "SQL query is required"@),
        r matches Ok(out) ==> sql is Some && db.catalog().dom().contains(id) && out.aligned(),
        r matches Err(e) ==> (is_not_found(e) && !db.catalog().dom().contains(id) && sql is Some)
            || e.status == 400 || e.status == 500,
        sql is Some && !db.catalog().dom().contains(id) ==> !(r is Ok),
{
    let sql_text = match sql {
        Some(s) => s,
        None => {
            return Err(api_error(400, "SQL query is required"));
        },
    };
    let rec = match DatabaseMetadata::find_by_id(db, id) {
        Ok(Some(m)) => m,
        Ok(None) => {
            return Err(not_found());
        },
        Err(e) => {
            return Err(map_catalog_error(e, "Failed to find database"));
        },
    };
    let mut pool = match db.get_database_pool(rec.path.as_str()) {
        Ok(p) => p,
        Err(e) => {
            return Err(map_catalog_error(e, "Failed to open database"));
        },
    };
    match execute(&mut pool, sql_text) {
        Ok(out) => Ok(out),
        Err(e) => Err(map_query_error(e)),
    }
}

/// What the multipart layer hands over for one upload: the filename, the
/// declared content type, and the byte length of the payload.
#[derive(Debug, Clone, PartialEq)]
pub struct UploadRequest {
    pub filename: String,
    pub content_type: String,
    pub size: usize,
}

/// Where a checked upload is to be stored.
#[derive(Debug, Clone, PartialEq)]
pub struct UploadPlan {
    pub unique_filename: String,
    pub storage_path: String,
}

/// Checks an incoming upload — presence, declared type, size bounds — and
/// plans its storage path. Exactly the uploads with an accepted content type
/// and a byte length inside the closed range pass; each rejection names what
/// it turned the upload away for.
pub fn upload_database(db: &DbConnection, upload: Option<&UploadRequest>, now: i64) -> (r: Result<
    UploadPlan,
    ApiError,
>)
    requires
        ts_in_range(now),
    ensures
        upload is None ==> (r matches Err(e) && e.status == 400 && e.message@
            == "No file provided"@),
        upload matches Some(u) ==> {
            &&& !valid_content_type(u.content_type@) ==> (r matches Err(e) && e.status == 400
                && e.message@ == "Invalid file type. Only SQLite databases are allowed."@)
            &&& valid_content_type(u.content_type@) && u.size > MAX_FILE_SIZE ==> (r matches Err(e)
                && e.status == 400 && e.message@ == "File too large. Maximum size is 100MB"@)
            &&& valid_content_type(u.content_type@) && u.size < MIN_FILE_SIZE ==> (r matches Err(e)
                && e.status == 400 && e.message@ == "File too small. Minimum size is 1KB"@)
            &&& valid_content_type(u.content_type@) && size_ok(u.size as int) ==> (r matches Ok(
                plan,
            ) && {
                &&& plan.unique_filename@ == spec_storage_filename(now, u.filename@)
                &&& plan.storage_path@ == db.dir() + "/"@ + "databases"@ + "/"@
                    + plan.unique_filename@
            })
        },
{
    let u = match upload {
        Some(u) => u,
        None => {
            return Err(api_error(400, "No file provided"));
        },
    };
    if !acceptable_content_type(u.content_type.as_str()) {
        return Err(api_error(400, "Invalid file type. Only SQLite databases are allowed."));
    }
    if u.size > MAX_FILE_SIZE {
        return Err(api_error(400, "File too large. Maximum size is 100MB"));
    }
    if u.size < MIN_FILE_SIZE {
        return Err(api_error(400, "File too small. Minimum size is 1KB"));
    }
    let unique_filename = storage_filename(now, u.filename.as_str());
    let mut storage_path = db.get_storage_path("databases");
    storage_path.append("/");
    storage_path.append(unique_filename.as_str());
    Ok(UploadPlan { unique_filename, storage_path })
}

/// Opens the just-persisted upload as a database; a file that cannot be
/// opened is rejected as structurally invalid.
pub fn open_uploaded_database(db: &DbConnection, storage_path: &str) -> (r: Result<
    PoolHandle,
    ApiError,
>)
    ensures
        r matches Err(e) ==> e.status == 400 && e.message@ == "Failed to read database structure"@,
{
    match db.get_database_pool(storage_path) {
        Ok(p) => Ok(p),
        Err(_) => Err(api_error(400, "Failed to read database structure")),
    }
}

/// Finishes one upload after its bytes are on disk: probes the persisted
/// file's structure over `pool`, builds the record — name from the original
/// filename, the probed table count, an auto-generated upload note — and
/// persists it under a fresh id. A file that cannot be probed is rejected as
/// structurally invalid, and the caller removes it.
pub fn upload_finalize(
    db: &mut DbConnection,
    pool: &PoolHandle,
    filename: &str,
    storage_path: &str,
    size: usize,
    now: i64,
) -> (r: Result<DatabaseMetadata, ApiError>)
    requires
        ts_in_range(now),
        size <= MAX_FILE_SIZE,
    ensures
        final(db).dir() == old(db).dir(),
        r matches Err(e) ==> final(db).catalog() == old(db).catalog() && (e.status == 400
            || e.status == 500),
        r matches Err(e) ==> (e.status == 400 ==> e.message@
            == "Failed to read database structure"@),
        r matches Ok(out) ==> {
            &&& out.id is Some
            &&& !old(db).catalog().dom().contains(out.id->Some_0)
            &&& final(db).catalog() == old(db).catalog().insert(
                out.id->Some_0,
                record_cells(out),
            )
            &&& out.name@ == filename@
            &&& out.path@ == storage_path@
            &&& out.size == size as i64
            &&& out.table_count as int == db_tables(*pool).len()
            &&& out.is_favorite == false
            &&& (out.notes matches Some(n) && n@ == "Uploaded on "@ + rfc3339_of(now))
            &&& out.created_at == now && out.updated_at == now
            &&& out.wf()
        },
{
    let table_count = match count_tables(pool) {
        Ok(n) => n,
        Err(_) => {
            return Err(api_error(400, "Failed to read database structure"));
        },
    };
    let mut note = String::from_str("Uploaded on ");
    note.append(format_rfc3339(now).as_str());
    let rec = DatabaseMetadata::new(
        String::from_str(filename),
        String::from_str(storage_path),
        size as i64,
        table_count,
        false,
        Some(note),
        now,
    );
    match rec.save(db, now) {
        Ok(out) => Ok(out),
        Err(e) => Err(map_catalog_error(e, "Failed to save database metadata")),
    }
}

/// Law: a record finalized from a probe of a database pool counts exactly
/// the tables that listing the same pool names — the round trip from upload
/// to introspection agrees wherever both read the same underlying database.
pub proof fn lemma_upload_round_trip(
    pool: PoolHandle,
    out: DatabaseMetadata,
    names: Vec<String>,
)
    requires
        out.table_count as int == db_tables(pool).len(),
        strings_view(names@) == db_tables(pool),
    ensures
        out.table_count as int == names@.len(),
{
    assert(strings_view(names@).len() == names@.len());
}

/// Runs the fixture statements that set up the sample table with its two
/// rows, through the same executor every caller-supplied statement runs
/// through.
pub fn create_test_database(pool: &mut PoolHandle) -> (r: Result<String, ApiError>)
    ensures
        r matches Ok(m) ==> m@ == "Test database created successfully"@,
        r matches Err(e) ==> e.status == 500,
{
    match execute(
        pool,
        "CREATE TABLE IF NOT EXISTS users (id INTEGER PRIMARY KEY, name TEXT NOT NULL, email TEXT UNIQUE NOT NULL)",
    ) {
        Ok(_) => {},
        Err(e) => {
            return Err(map_query_error(e));
        },
    }
    match execute(
        pool,
        "INSERT OR IGNORE INTO users (name, email) VALUES ('Alice', 'alice@example.com'), ('Bob', 'bob@example.com')",
    ) {
        Ok(_) => {},
        Err(e) => {
            return Err(map_query_error(e));
        },
    }
    Ok(String::from_str("Test database created successfully"))
}

} // verus!
