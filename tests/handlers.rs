use file_vault::download::{attachment_header, download_headers, found_record, parse_file_id, payload_or_not_found};
use file_vault::listing::{file_info, list_entries, list_files};
use file_vault::upload::{accept_field, complete_upload, multipart_failure, upload_response, upload_step, MAX_BODY_BYTES};
use file_vault::{AppError, FieldMeta, FileId, FileRecord};

fn id(last: u8) -> FileId {
    FileId::from_bytes([0x65, 0x3f, 0x1a, 0, 0, 0, 0, 0, 0, 0, 0, last])
}

fn record(last: u8, name: &str, kind: &str, expire_at: i64) -> FileRecord {
    FileRecord {
        id: Some(id(last)),
        filename: Some(name.to_string()),
        content_type: Some(kind.to_string()),
        expire_at: Some(expire_at),
    }
}

#[test]
fn upload_without_file_field_fails() {
    match accept_field(None) {
        Err(e) => {
            assert_eq!(e.status_code(), 500);
            assert_eq!(e.detail(), "Nenhum arquivo enviado");
        }
        Ok(_) => panic!("an upload without a file field must fail"),
    }
}

#[test]
fn upload_field_defaults() {
    let t = accept_field(Some(FieldMeta { file_name: None, content_type: None })).ok().unwrap();
    assert_eq!(t.filename, "unknown");
    assert_eq!(t.content_type, "application/octet-stream");
}

#[test]
fn upload_field_keeps_client_values() {
    let field = FieldMeta {
        file_name: Some("report.pdf".to_string()),
        content_type: Some("application/pdf".to_string()),
    };
    let t = accept_field(Some(field)).ok().unwrap();
    assert_eq!(t.filename, "report.pdf");
    assert_eq!(t.content_type, "application/pdf");
}

#[test]
fn upload_response_fields() {
    let r = upload_response(&id(0x2a), 1_700_086_400_000);
    assert_eq!(r.file_id, "653f1a00000000000000002a");
    assert_eq!(r.download_url, "/download/653f1a00000000000000002a");
    assert_eq!(r.expires_at, "2023-11-15T22:13:20+00:00");
}

#[test]
fn body_ceiling_is_one_hundred_mebibytes() {
    assert_eq!(MAX_BODY_BYTES, 104_857_600);
}

#[test]
fn download_of_malformed_key_is_bad_request() {
    match parse_file_id("not-an-id") {
        Err(e) => {
            assert!(matches!(e, AppError::InvalidObjectId));
            assert_eq!(e.status_code(), 400);
        }
        Ok(_) => panic!("a malformed key must be refused"),
    }
}

#[test]
fn download_of_unknown_id_is_not_found() {
    let key = "ffffffffffffffffffffffff";
    assert!(parse_file_id(key).is_ok());
    match found_record(Ok(None)) {
        Err(e) => assert_eq!(e.status_code(), 404),
        Ok(_) => panic!("an absent record must read as not found"),
    }
}

#[test]
fn failed_lookup_is_store_failure() {
    match found_record(Err("timeout".to_string())) {
        Err(e) => {
            assert!(matches!(e, AppError::DatabaseError(_)));
            assert_eq!(e.status_code(), 500);
            assert_eq!(e.detail(), "timeout");
        }
        Ok(_) => panic!("a failed lookup must fail"),
    }
}

#[test]
fn oversized_body_is_client_error() {
    let e = multipart_failure(413, "length limit exceeded".to_string());
    assert!(matches!(e, AppError::PayloadTooLarge));
    assert_eq!(e.status_code(), 413);
    let e = multipart_failure(400, "malformed part".to_string());
    assert_eq!(e.status_code(), 500);
    assert_eq!(e.detail(), "malformed part");
}

#[test]
fn upload_step_outcomes() {
    assert_eq!(upload_step(Ok(7u32)).ok().unwrap(), 7);
    match upload_step::<()>(Err("write failed".to_string())) {
        Err(e) => {
            assert!(matches!(e, AppError::UploadError(_)));
            assert_eq!(e.detail(), "write failed");
        }
        Ok(_) => panic!("a failed step must fail the upload"),
    }
}

#[test]
fn complete_upload_outcomes() {
    let r = complete_upload(Ok(()), &id(0x2a), 1_700_086_400_000).ok().unwrap();
    assert_eq!(r.file_id, "653f1a00000000000000002a");
    assert_eq!(r.download_url, "/download/653f1a00000000000000002a");
    assert_eq!(r.expires_at, "2023-11-15T22:13:20+00:00");
    match complete_upload(Err("not primary".to_string()), &id(0x2a), 0) {
        Err(e) => {
            assert_eq!(e.status_code(), 500);
            assert_eq!(e.detail(), "not primary");
        }
        Ok(_) => panic!("a failed expiry update must fail the upload"),
    }
}

#[test]
fn list_outcomes() {
    assert!(list_files(Ok(Vec::new())).ok().unwrap().is_empty());
    let listed = list_files(Ok(vec![record(3, "a.txt", "text/plain", 0)])).ok().unwrap();
    assert_eq!(listed.len(), 1);
    assert_eq!(listed[0]._id, "653f1a000000000000000003");
    match list_files(Err("cursor killed".to_string())) {
        Err(e) => {
            assert!(matches!(e, AppError::DatabaseError(_)));
            assert_eq!(e.detail(), "cursor killed");
        }
        Ok(_) => panic!("a failed scan must fail the listing"),
    }
}

#[test]
fn payload_read_outcomes() {
    assert_eq!(payload_or_not_found(Ok(vec![1, 2, 3])).ok().unwrap(), vec![1, 2, 3]);
    match payload_or_not_found(Err("chunk missing".to_string())) {
        Err(e) => assert_eq!(e.status_code(), 404),
        Ok(_) => panic!("a failed read must read as not found"),
    }
}

#[test]
fn download_headers_from_record() {
    let h = download_headers(&record(1, "report.pdf", "application/pdf", 0));
    assert_eq!(h.content_type, "application/pdf");
    assert_eq!(h.content_disposition, "attachment; filename=\"report.pdf\"");
}

#[test]
fn download_headers_defaults() {
    let bare = FileRecord { id: Some(id(1)), filename: None, content_type: None, expire_at: None };
    let h = download_headers(&bare);
    assert_eq!(h.content_type, "application/octet-stream");
    assert_eq!(h.content_disposition, "attachment; filename=\"download\"");
    assert_eq!(attachment_header("a b.txt"), "attachment; filename=\"a b.txt\"");
}

#[test]
fn upload_then_download_round_trip() {
    let field = FieldMeta {
        file_name: Some("photo.png".to_string()),
        content_type: Some("image/png".to_string()),
    };
    let target = accept_field(Some(field)).ok().unwrap();
    let response = upload_response(&id(7), 86_400_000);
    let parsed = parse_file_id(&response.file_id).ok().unwrap();
    assert_eq!(parsed.bytes, id(7).bytes);
    let stored = record(7, &target.filename, &target.content_type, 86_400_000);
    let found = found_record(Ok(Some(stored))).ok().unwrap();
    let h = download_headers(&found);
    assert_eq!(h.content_type, "image/png");
    assert!(h.content_disposition.contains("photo.png"));
    let bytes = payload_or_not_found(Ok(vec![0x89, 0x50, 0x4e, 0x47])).ok().unwrap();
    assert_eq!(bytes, vec![0x89, 0x50, 0x4e, 0x47]);
}

#[test]
fn list_of_nothing_is_empty() {
    assert!(list_entries(&Vec::new()).is_empty());
}

#[test]
fn list_has_one_entry_per_upload() {
    let records: Vec<FileRecord> = (0u8..5).map(|i| record(i, "f.txt", "text/plain", 0)).collect();
    let issued: Vec<String> = (0u8..5).map(|i| upload_response(&id(i), 0).file_id).collect();
    let listed = list_entries(&records);
    assert_eq!(listed.len(), 5);
    for (entry, issued_id) in listed.iter().zip(issued.iter()) {
        assert_eq!(&entry._id, issued_id);
        assert_eq!(entry.filename, "f.txt");
        assert_eq!(entry.expire_at, "1970-01-01T00:00:00+00:00");
    }
}

#[test]
fn list_entry_of_incomplete_record() {
    let bare = FileRecord { id: None, filename: None, content_type: None, expire_at: None };
    let info = file_info(&bare);
    assert_eq!(info._id, "unknown");
    assert_eq!(info.filename, "unknown");
    assert_eq!(info.expire_at, "unknown");
}

#[test]
fn list_entry_of_complete_record() {
    let info = file_info(&record(0x10, "notes.md", "text/markdown", 1_700_000_000_000));
    assert_eq!(info._id, "653f1a000000000000000010");
    assert_eq!(info.filename, "notes.md");
    assert_eq!(info.expire_at, "2023-11-14T22:13:20+00:00");
}
