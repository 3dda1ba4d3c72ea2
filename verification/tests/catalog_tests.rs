use rs_backend::catalog::CatalogError;
use rs_backend::connection::DbConnection;
use rs_backend::database_metadata::DatabaseMetadata;

const NOW: i64 = 1_700_000_000;

fn setup() -> (tempfile::TempDir, DbConnection, String) {
    let dir = tempfile::tempdir().expect("temp dir");
    let root = dir.path().to_str().expect("utf-8 path").to_string();
    let db_connection = DbConnection::new(root.clone()).expect("catalog opens");
    let db_path = format!("{}/test.db", root);
    (dir, db_connection, db_path)
}

#[test]
fn test_database_metadata() {
    let (_dir, _db_connection, db_path) = setup();

    let metadata = DatabaseMetadata::new(
        "Test DB".to_string(),
        db_path,
        1000,
        2,
        false,
        Some("Test notes".to_string()),
        NOW,
    );

    assert_eq!(metadata.name, "Test DB");
    assert_eq!(metadata.table_count, 2);
    assert_eq!(metadata.is_favorite, false);
    assert_eq!(metadata.notes, Some("Test notes".to_string()));
}

#[test]
fn test_save_and_find_database_metadata() {
    let (_dir, mut db_connection, db_path) = setup();

    let metadata = DatabaseMetadata::new(
        "Test DB".to_string(),
        db_path,
        1000,
        2,
        false,
        Some("Test notes".to_string()),
        NOW,
    );

    let saved = metadata.save(&mut db_connection, NOW).unwrap();
    assert!(saved.id.is_some());

    let found =
        DatabaseMetadata::find_by_id(&db_connection, saved.id.expect("ID should be present"))
            .unwrap();
    assert!(found.is_some());
    let found = found.unwrap();

    assert_eq!(found.name, "Test DB");
    assert_eq!(found.table_count, 2);
    assert_eq!(found.is_favorite, false);
    assert_eq!(found.notes, Some("Test notes".to_string()));
}

#[test]
fn test_find_nonexistent_metadata() {
    let (_dir, db_connection, _) = setup();

    let result = DatabaseMetadata::find_by_id(&db_connection, 9999).unwrap();
    assert!(result.is_none());
}

#[test]
fn test_list_database_metadata() {
    let (_dir, mut db_connection, db_path) = setup();

    for i in 1..=3 {
        let metadata = DatabaseMetadata::new(
            format!("Test DB {}", i),
            db_path.clone(),
            1000,
            2,
            false,
            Some(format!("Test notes {}", i)),
            NOW,
        );
        metadata.save(&mut db_connection, NOW).unwrap();
    }

    let list = DatabaseMetadata::list(&db_connection).unwrap();
    assert_eq!(list.len(), 3);
}

#[test]
fn test_update_database_metadata() {
    let (_dir, mut db_connection, db_path) = setup();

    let metadata = DatabaseMetadata::new(
        "Test DB".to_string(),
        db_path,
        1000,
        2,
        false,
        Some("Test notes".to_string()),
        NOW,
    );

    let mut saved = metadata.save(&mut db_connection, NOW).unwrap();

    saved.name = "Updated DB".to_string();
    saved.is_favorite = true;
    saved.notes = Some("Updated notes".to_string());

    let updated = saved.save(&mut db_connection, NOW).unwrap();

    assert_eq!(updated.name, "Updated DB");
    assert_eq!(updated.is_favorite, true);
    assert_eq!(updated.notes, Some("Updated notes".to_string()));

    let found = DatabaseMetadata::find_by_id(&db_connection, updated.id.expect(
        "ID should be present",
    ))
    .unwrap()
    .unwrap();
    assert_eq!(found.name, "Updated DB");
    assert_eq!(found.is_favorite, true);
    assert_eq!(found.notes, Some("Updated notes".to_string()));
}

#[test]
fn test_bootstrap_twice_preserves_records() {
    let dir = tempfile::tempdir().expect("temp dir");
    let root = dir.path().to_str().expect("utf-8 path").to_string();

    let mut first = DbConnection::new(root.clone()).expect("first open");
    let rec = DatabaseMetadata::new(
        "Persisted".to_string(),
        format!("{}/file.db", root),
        2048,
        1,
        false,
        None,
        NOW,
    );
    let saved = rec.save(&mut first, NOW).unwrap();
    drop(first);

    let second = DbConnection::new(root).expect("second open never errors");
    let list = DatabaseMetadata::list(&second).unwrap();
    assert_eq!(list.len(), 1);
    assert_eq!(list[0].id, saved.id);
    assert_eq!(list[0].name, "Persisted");
}

#[test]
fn test_list_orders_newest_first() {
    let (_dir, mut db_connection, db_path) = setup();

    for i in 0..3i64 {
        let metadata = DatabaseMetadata::new(
            format!("DB {}", i),
            db_path.clone(),
            1000,
            0,
            false,
            None,
            NOW + i * 60,
        );
        metadata.save(&mut db_connection, NOW + i * 60).unwrap();
    }

    let list = DatabaseMetadata::list(&db_connection).unwrap();
    assert_eq!(list.len(), 3);
    assert!(list[0].created_at >= list[1].created_at);
    assert!(list[1].created_at >= list[2].created_at);
    assert_eq!(list[0].name, "DB 2");
    assert_eq!(list[2].name, "DB 0");
}

#[test]
fn test_malformed_stored_timestamp_fails_loudly() {
    let (_dir, db_connection, _) = setup();

    let list = DatabaseMetadata::list(&db_connection).unwrap();
    assert!(list.is_empty());
    let meta_path = db_connection.get_storage_path("metadata.db");
    let conn = rusqlite::Connection::open(&meta_path).unwrap();
    conn.execute(
        "INSERT INTO database_metadata (id, name, path, size, table_count, is_favorite, notes, created_at, updated_at) VALUES (7, 'x', '/tmp/x', 10, 0, 0, NULL, 'not-a-date', 'not-a-date')",
        [],
    )
    .unwrap();
    drop(conn);

    let r = DatabaseMetadata::find_by_id(&db_connection, 7);
    assert_eq!(r, Err(CatalogError::MalformedStoredTimestamp));
}

#[test]
fn test_unexpected_row_shape_is_engine_error() {
    let (_dir, db_connection, _) = setup();

    let meta_path = db_connection.get_storage_path("metadata.db");
    let conn = rusqlite::Connection::open(&meta_path).unwrap();
    conn.execute(
        "INSERT INTO database_metadata (id, name, path, size, table_count, is_favorite, notes, created_at, updated_at) VALUES (8, 'x', '/tmp/x', 'not-a-number', 0, 0, NULL, '2023-01-01T00:00:00+00:00', '2023-01-01T00:00:00+00:00')",
        [],
    )
    .unwrap();
    drop(conn);

    let r = DatabaseMetadata::find_by_id(&db_connection, 8);
    match r {
        Err(CatalogError::Engine(_)) => {}
        other => panic!("expected an engine error, got {:?}", other),
    }
}

#[test]
fn test_ids_are_monotonic_across_deletion() {
    let (_dir, mut db_connection, db_path) = setup();

    let first = DatabaseMetadata::new("A".to_string(), db_path.clone(), 1000, 0, false, None, NOW)
        .save(&mut db_connection, NOW)
        .unwrap();
    let second = DatabaseMetadata::new("B".to_string(), db_path.clone(), 1000, 0, false, None, NOW)
        .save(&mut db_connection, NOW)
        .unwrap();
    let id1 = first.id.unwrap();
    let id2 = second.id.unwrap();
    assert!(id2 > id1);

    // Deleting the newest record must not make its id available again.
    DatabaseMetadata::delete(&mut db_connection, id2).unwrap();
    let third = DatabaseMetadata::new("C".to_string(), db_path, 1000, 0, false, None, NOW)
        .save(&mut db_connection, NOW)
        .unwrap();
    assert!(third.id.unwrap() > id2);
}

#[test]
fn test_update_does_not_change_stored_path() {
    let (_dir, mut db_connection, db_path) = setup();

    let saved = DatabaseMetadata::new("P".to_string(), db_path.clone(), 1000, 0, false, None, NOW)
        .save(&mut db_connection, NOW)
        .unwrap();
    let mut tampered = saved.clone();
    tampered.path = "/somewhere/else.db".to_string();
    tampered.save(&mut db_connection, NOW + 5).unwrap();

    let found = DatabaseMetadata::find_by_id(&db_connection, saved.id.unwrap())
        .unwrap()
        .unwrap();
    assert_eq!(found.path, db_path);
    assert_eq!(found.created_at, NOW);
    assert_eq!(found.updated_at, NOW + 5);
}

#[test]
fn test_delete_is_idempotent() {
    let (_dir, mut db_connection, db_path) = setup();

    let rec = DatabaseMetadata::new("D".to_string(), db_path, 1000, 0, false, None, NOW);
    let saved = rec.save(&mut db_connection, NOW).unwrap();
    let id = saved.id.unwrap();

    DatabaseMetadata::delete(&mut db_connection, id).unwrap();
    assert!(DatabaseMetadata::find_by_id(&db_connection, id).unwrap().is_none());
    // Removing a nonexistent id is not an error.
    DatabaseMetadata::delete(&mut db_connection, id).unwrap();
}
