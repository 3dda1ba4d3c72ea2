use rs_backend::connection::DbConnection;
use rs_backend::database_metadata::DatabaseMetadata;
use rs_backend::gateway::{
    create_test_database, delete_database, deleted_message, execute_query, get_database,
    get_table_schema, get_tables, health_check, list_databases, open_uploaded_database,
    update_database, upload_database, upload_finalize, UpdateRequest, UploadRequest,
};
use rs_backend::values::ApiValue;
use std::io::Write;

const NOW: i64 = 1_700_000_000;

fn open_env() -> (tempfile::TempDir, DbConnection, String) {
    let dir = tempfile::tempdir().expect("temp dir");
    let root = dir.path().to_str().expect("utf-8 path").to_string();
    let db_connection = DbConnection::new(root.clone()).expect("catalog opens");
    (dir, db_connection, root)
}

/// Creates a well-formed two-table database file and catalogs it, returning
/// the assigned id.
fn upload_two_table_db(db: &mut DbConnection, root: &str) -> (i64, String) {
    let path = format!("{}/uploaded.db", root);
    let conn = rusqlite::Connection::open(&path).unwrap();
    conn.execute("CREATE TABLE test1 (id INTEGER PRIMARY KEY, name TEXT NOT NULL)", [])
        .unwrap();
    conn.execute("CREATE TABLE test2 (k INTEGER)", []).unwrap();
    conn.execute("INSERT INTO test1 (id, name) VALUES (1, 'alpha'), (2, 'beta')", [])
        .unwrap();
    drop(conn);

    let pool = open_uploaded_database(db, &path).expect("opens as a database");
    let rec = upload_finalize(db, &pool, "test.db", &path, 2048, NOW).expect("catalogs");
    (rec.id.expect("id assigned"), path)
}

#[test]
fn test_health_check() {
    let h = health_check(NOW);
    assert_eq!(h.status, "ok");
    assert_eq!(h.timestamp, "2023-11-14T22:13:20+00:00");
}

#[test]
fn test_list_databases_empty() {
    let (_dir, db, _root) = open_env();
    let databases = list_databases(&db).expect("Response should have databases array");
    assert!(databases.is_empty());
}

#[test]
fn test_database_not_found() {
    let (_dir, db, _root) = open_env();
    let err = get_database(&db, 999999).unwrap_err();
    assert_eq!(err.status, 404);
    assert_eq!(err.message, "Database not found");
}

#[test]
fn test_delete_nonexistent_database() {
    let (_dir, mut db, _root) = open_env();
    let err = delete_database(&mut db, 999999).unwrap_err();
    assert_eq!(err.status, 404);
    assert_eq!(err.message, "Database not found");
}

#[test]
fn test_update_nonexistent_database() {
    let (_dir, mut db, _root) = open_env();
    let patch = UpdateRequest {
        name: Some("Updated Name".to_string()),
        notes: None,
        is_favorite: None,
    };
    let err = update_database(&mut db, 999999, patch, NOW).unwrap_err();
    assert_eq!(err.status, 404);
    assert_eq!(err.message, "Database not found");
}

#[test]
fn test_get_tables_not_found() {
    let (_dir, db, _root) = open_env();
    let err = get_tables(&db, 999999).unwrap_err();
    assert_eq!(err.status, 404);
    assert_eq!(err.message, "Database not found");
}

#[test]
fn test_upload_no_file() {
    let (_dir, db, _root) = open_env();
    let err = upload_database(&db, None, NOW).unwrap_err();
    assert_eq!(err.status, 400);
    assert_eq!(err.message, "No file provided");
}

#[test]
fn test_upload_invalid_file_type() {
    let (_dir, db, _root) = open_env();
    let req = UploadRequest {
        filename: "notes.txt".to_string(),
        content_type: "text/plain".to_string(),
        size: 2048,
    };
    let err = upload_database(&db, Some(&req), NOW).unwrap_err();
    assert_eq!(err.status, 400);
    assert_eq!(err.message, "Invalid file type. Only SQLite databases are allowed.");
}

#[test]
fn test_upload_size_boundaries() {
    let (_dir, db, _root) = open_env();
    let req = |size: usize| UploadRequest {
        filename: "a.db".to_string(),
        content_type: "application/x-sqlite3".to_string(),
        size,
    };

    let too_small = upload_database(&db, Some(&req(1023)), NOW).unwrap_err();
    assert_eq!(too_small.status, 400);
    assert_eq!(too_small.message, "File too small. Minimum size is 1KB");

    let at_floor = upload_database(&db, Some(&req(1024)), NOW).expect("floor size accepted");
    assert_eq!(at_floor.unique_filename, format!("{}-a.db", NOW));

    let at_ceiling = upload_database(&db, Some(&req(104857600)), NOW);
    assert!(at_ceiling.is_ok());

    let too_large = upload_database(&db, Some(&req(104857601)), NOW).unwrap_err();
    assert_eq!(too_large.status, 400);
    assert_eq!(too_large.message, "File too large. Maximum size is 100MB");
}

#[test]
fn test_upload_plan_paths() {
    let (_dir, db, root) = open_env();
    let req = UploadRequest {
        filename: "mydata.db".to_string(),
        content_type: "application/octet-stream".to_string(),
        size: 4096,
    };
    let plan = upload_database(&db, Some(&req), NOW).expect("accepted");
    assert_eq!(plan.unique_filename, format!("{}-mydata.db", NOW));
    assert_eq!(plan.storage_path, format!("{}/databases/{}", root, plan.unique_filename));
}

#[test]
fn test_upload_corrupted_database() {
    let (_dir, mut db, root) = open_env();
    // The 16-byte header magic followed by zeros up to 2048 bytes: the file
    // opens as a database but fails as soon as its structure is read.
    let mut data = vec![0u8; 2048];
    data[..16].copy_from_slice(b"SQLite format 3\0");
    let mut f = tempfile::Builder::new().suffix(".db").tempfile_in(&root).unwrap();
    f.write_all(&data).unwrap();
    f.flush().unwrap();
    let path = f.path().to_str().unwrap().to_string();

    let err = match open_uploaded_database(&db, &path) {
        Ok(pool) => upload_finalize(&mut db, &pool, "corrupted.db", &path, 2048, NOW).unwrap_err(),
        Err(e) => e,
    };
    assert_eq!(err.status, 400);
    assert_eq!(err.message, "Failed to read database structure");
}

#[test]
fn test_round_trip_two_tables() {
    let (_dir, mut db, root) = open_env();
    let (id, _path) = upload_two_table_db(&mut db, &root);

    let rec = get_database(&db, id).expect("found");
    assert_eq!(rec.table_count, 2);
    assert_eq!(rec.name, "test.db");
    assert_eq!(rec.size, 2048);
    assert_eq!(rec.is_favorite, false);
    assert_eq!(rec.created_at, NOW);

    let tables = get_tables(&db, id).expect("lists");
    assert_eq!(tables.len(), 2);
    assert!(tables.contains(&"test1".to_string()));
    assert!(tables.contains(&"test2".to_string()));
}

#[test]
fn test_execute_query_rows_align_with_columns() {
    let (_dir, mut db, root) = open_env();
    let (id, _path) = upload_two_table_db(&mut db, &root);

    let out = execute_query(&db, id, Some("SELECT * FROM test1 ORDER BY id")).expect("runs");
    assert_eq!(out.columns, vec!["id".to_string(), "name".to_string()]);
    assert_eq!(out.rows.len(), 2);
    for row in &out.rows {
        assert_eq!(row.len(), out.columns.len());
        for (i, (key, _)) in row.iter().enumerate() {
            assert_eq!(key, &out.columns[i]);
        }
    }
    assert_eq!(out.rows[0][0].1, ApiValue::Int(1));
    assert_eq!(out.rows[0][1].1, ApiValue::Text("alpha".to_string()));
    assert_eq!(out.rows[1][0].1, ApiValue::Int(2));
    assert_eq!(out.rows[1][1].1, ApiValue::Text("beta".to_string()));
}

#[test]
fn test_execute_query_requires_sql() {
    let (_dir, mut db, root) = open_env();
    let (id, _path) = upload_two_table_db(&mut db, &root);
    let err = execute_query(&db, id, None).unwrap_err();
    assert_eq!(err.status, 400);
    assert_eq!(err.message, "SQL query is required");
}

#[test]
fn test_execute_query_prepare_error_is_echoed() {
    let (_dir, mut db, root) = open_env();
    let (id, _path) = upload_two_table_db(&mut db, &root);
    let err = execute_query(&db, id, Some("SELECT * FROM missing_table")).unwrap_err();
    assert_eq!(err.status, 500);
    assert!(err.message.starts_with("Failed to prepare query: "));
}

#[test]
fn test_query_converts_real_and_blob() {
    let (_dir, mut db, root) = open_env();
    let (id, _path) = upload_two_table_db(&mut db, &root);

    let out = execute_query(&db, id, Some("SELECT 1.5 AS x, X'0102' AS b")).expect("runs");
    assert_eq!(out.rows.len(), 1);
    assert_eq!(out.rows[0][0].1, ApiValue::Float(1.5f64.to_bits()));
    assert_eq!(out.rows[0][1].1, ApiValue::Text("<BLOB: 2 bytes>".to_string()));
}

#[test]
fn test_get_table_schema_descriptors() {
    let (_dir, mut db, root) = open_env();
    let (id, _path) = upload_two_table_db(&mut db, &root);

    let schema = get_table_schema(&db, id, "test1").expect("reflects");
    assert_eq!(schema.len(), 2);
    assert_eq!(schema[0].position, 0);
    assert_eq!(schema[0].name, "id");
    assert_eq!(schema[0].declared_type, "INTEGER");
    assert!(schema[0].is_primary_key);
    assert_eq!(schema[1].name, "name");
    assert_eq!(schema[1].declared_type, "TEXT");
    assert!(schema[1].not_null);
    assert!(!schema[1].is_primary_key);
    assert_eq!(schema[1].default_value, None);
}

#[test]
fn test_update_preserves_identity_and_advances_stamp() {
    let (_dir, mut db, root) = open_env();
    let (id, _path) = upload_two_table_db(&mut db, &root);

    let before = get_database(&db, id).expect("found");
    let patch = UpdateRequest {
        name: Some("Renamed".to_string()),
        notes: Some("touched".to_string()),
        is_favorite: Some(true),
    };
    let later = NOW + 3600;
    let updated = update_database(&mut db, id, patch, later).expect("updates");
    assert_eq!(updated.id, Some(id));
    assert_eq!(updated.created_at, before.created_at);
    assert!(updated.updated_at >= before.updated_at);
    assert_eq!(updated.updated_at, later);
    assert_eq!(updated.name, "Renamed");
    assert_eq!(updated.is_favorite, true);

    let found = get_database(&db, id).expect("still found");
    assert_eq!(found.id, Some(id));
    assert_eq!(found.created_at, before.created_at);
    assert_eq!(found.updated_at, later);
    assert_eq!(found.name, "Renamed");
    assert_eq!(found.notes, Some("touched".to_string()));
}

#[test]
fn test_execute_query_constraint_violation_is_exec_error() {
    let (_dir, mut db, root) = open_env();
    let (id, _path) = upload_two_table_db(&mut db, &root);
    // The row with id 1 already exists; the statement prepares but fails as
    // it runs.
    let err = execute_query(&db, id, Some("INSERT INTO test1 (id, name) VALUES (1, 'dup')"))
        .unwrap_err();
    assert_eq!(err.status, 500);
    assert_eq!(err.message, "Failed to execute query");
}

#[test]
fn test_update_with_empty_patch_keeps_fields() {
    let (_dir, mut db, root) = open_env();
    let (id, _path) = upload_two_table_db(&mut db, &root);

    let before = get_database(&db, id).expect("found");
    let patch = UpdateRequest { name: None, notes: None, is_favorite: None };
    let updated = update_database(&mut db, id, patch, NOW + 10).expect("updates");
    assert_eq!(updated.name, before.name);
    assert_eq!(updated.notes, before.notes);
    assert_eq!(updated.is_favorite, before.is_favorite);
    assert_eq!(updated.created_at, before.created_at);
    assert_eq!(updated.updated_at, NOW + 10);
}

#[test]
fn test_delete_database_removes_record() {
    let (_dir, mut db, root) = open_env();
    let (id, path) = upload_two_table_db(&mut db, &root);

    let returned_path = delete_database(&mut db, id).expect("deletes");
    assert_eq!(returned_path, path);
    assert_eq!(deleted_message(), "Database deleted successfully");

    let err = get_database(&db, id).unwrap_err();
    assert_eq!(err.status, 404);
    assert_eq!(err.message, "Database not found");
}

#[test]
fn test_create_test_database() {
    let (_dir, db, root) = open_env();
    let mut pool = db.get_database_pool(&format!("{}/fixture.db", root)).expect("opens");
    let message = create_test_database(&mut pool).expect("creates");
    assert_eq!(message, "Test database created successfully");

    let out = rs_backend::query::execute(&mut pool, "SELECT name, email FROM users ORDER BY id")
        .expect("runs");
    assert_eq!(out.rows.len(), 2);
    assert_eq!(out.rows[0][0].1, ApiValue::Text("Alice".to_string()));
    assert_eq!(out.rows[1][1].1, ApiValue::Text("bob@example.com".to_string()));
}

#[test]
fn test_list_after_uploads() {
    let (_dir, mut db, root) = open_env();
    let (_id, _path) = upload_two_table_db(&mut db, &root);
    let rec2 = DatabaseMetadata::new(
        "second.db".to_string(),
        format!("{}/second.db", root),
        4096,
        0,
        true,
        None,
        NOW + 60,
    );
    rec2.save(&mut db, NOW + 60).unwrap();

    let all = list_databases(&db).expect("lists");
    assert_eq!(all.len(), 2);
    assert_eq!(all[0].name, "second.db");
    assert_eq!(all[1].name, "test.db");
}
