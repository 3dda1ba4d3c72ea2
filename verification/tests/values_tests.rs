use rs_backend::query::{convert_rows, convert_rows_parallel};
use rs_backend::logger::startup_complete;
use rs_backend::timestamp::DbDateTime;
use rs_backend::upload::{
    acceptable_content_type, storage_filename, upload_step, UploadEvent, UploadState,
};
use rs_backend::values::{blob_text, encode_value, u64_to_string, ApiValue, SqlValue};

#[test]
fn test_u64_decimal_rendering() {
    assert_eq!(u64_to_string(0), "0");
    assert_eq!(u64_to_string(7), "7");
    assert_eq!(u64_to_string(12345), "12345");
    assert_eq!(u64_to_string(18446744073709551615), "18446744073709551615");
}

#[test]
fn test_blob_placeholder_text() {
    assert_eq!(blob_text(0), "<BLOB: 0 bytes>");
    assert_eq!(blob_text(2), "<BLOB: 2 bytes>");
    assert_eq!(blob_text(1048576), "<BLOB: 1048576 bytes>");
}

#[test]
fn test_encode_value_passthrough() {
    assert_eq!(encode_value(SqlValue::Null), ApiValue::Null);
    assert_eq!(encode_value(SqlValue::Integer(-9)), ApiValue::Int(-9));
    assert_eq!(
        encode_value(SqlValue::Text("hi".to_string())),
        ApiValue::Text("hi".to_string())
    );
    assert_eq!(
        encode_value(SqlValue::Blob(vec![1, 2, 3])),
        ApiValue::Text("<BLOB: 3 bytes>".to_string())
    );
}

#[test]
fn test_encode_value_finite_real() {
    let bits = 1.5f64.to_bits();
    assert_eq!(encode_value(SqlValue::Real(bits)), ApiValue::Float(bits));
}

#[test]
fn test_encode_value_nonfinite_real_falls_back_to_zero() {
    assert_eq!(
        encode_value(SqlValue::Real(f64::NAN.to_bits())),
        ApiValue::Int(0)
    );
    assert_eq!(
        encode_value(SqlValue::Real(f64::INFINITY.to_bits())),
        ApiValue::Int(0)
    );
    assert_eq!(
        encode_value(SqlValue::Real(f64::NEG_INFINITY.to_bits())),
        ApiValue::Int(0)
    );
}

#[test]
fn test_parallel_conversion_matches_sequential() {
    let columns = vec!["a".to_string(), "b".to_string()];
    let raw: Vec<Vec<SqlValue>> = (0..64)
        .map(|i: i64| {
            vec![
                SqlValue::Integer(i),
                SqlValue::Text(format!("row {}", i)),
            ]
        })
        .collect();
    let sequential = convert_rows(&columns, &raw);
    let parallel = convert_rows_parallel(&columns, &raw);
    assert_eq!(sequential, parallel);
    assert_eq!(sequential.len(), 64);
    assert_eq!(sequential[10][0].0, "a");
    assert_eq!(sequential[10][0].1, ApiValue::Int(10));
}

#[test]
fn test_rfc3339_round_trip() {
    let stamp = DbDateTime::new(1700000000);
    let text = stamp.to_text();
    assert_eq!(text, "2023-11-14T22:13:20+00:00");
    let back = DbDateTime::parse(&text).expect("canonical text parses");
    assert_eq!(back.secs, 1700000000);
    assert_eq!(DbDateTime::new(0).to_text(), "1970-01-01T00:00:00+00:00");
    assert!(DbDateTime::parse("not-a-date").is_none());
}

#[test]
fn test_content_type_check() {
    assert!(acceptable_content_type("application/x-sqlite3"));
    assert!(acceptable_content_type("application/x-sqlite3; charset=binary"));
    assert!(acceptable_content_type("application/octet-stream"));
    assert!(!acceptable_content_type("text/plain"));
    assert!(!acceptable_content_type("application/json"));
    assert!(!acceptable_content_type(""));
}

#[test]
fn test_storage_filename_shape() {
    assert_eq!(storage_filename(1700000000, "data.db"), "1700000000-data.db");
    assert_eq!(storage_filename(0, "x"), "0-x");
}

#[test]
fn test_upload_state_machine_happy_path() {
    let mut s = UploadState::Received;
    s = upload_step(s, UploadEvent::TypeOk);
    assert_eq!(s, UploadState::TypeChecked);
    s = upload_step(s, UploadEvent::SizeOk);
    assert_eq!(s, UploadState::SizeChecked);
    s = upload_step(s, UploadEvent::Written);
    assert_eq!(s, UploadState::PersistedToDisk);
    s = upload_step(s, UploadEvent::ProbeOk);
    assert_eq!(s, UploadState::StructurallyValidated);
    s = upload_step(s, UploadEvent::Saved);
    assert_eq!(s, UploadState::Cataloged);
    assert_eq!(upload_step(s, UploadEvent::SaveFailed), UploadState::Cataloged);
}

#[test]
fn test_upload_state_machine_rejects() {
    assert_eq!(
        upload_step(UploadState::Received, UploadEvent::TypeInvalid),
        UploadState::Rejected
    );
    assert_eq!(
        upload_step(UploadState::TypeChecked, UploadEvent::SizeOut),
        UploadState::Rejected
    );
    assert_eq!(
        upload_step(UploadState::SizeChecked, UploadEvent::WriteFailed),
        UploadState::Rejected
    );
    assert_eq!(
        upload_step(UploadState::PersistedToDisk, UploadEvent::ProbeFailed),
        UploadState::Rejected
    );
    assert_eq!(
        upload_step(UploadState::StructurallyValidated, UploadEvent::SaveFailed),
        UploadState::Rejected
    );
    assert_eq!(
        upload_step(UploadState::Rejected, UploadEvent::Saved),
        UploadState::Rejected
    );
}

#[test]
fn test_startup_complete_messages() {
    let msgs = startup_complete(3001);
    assert_eq!(msgs.len(), 2);
    assert_eq!(msgs[0], "Server started successfully on port 3001");
    assert_eq!(
        msgs[1],
        "Health check available at http://localhost:3001/health"
    );
}
