use vstd::prelude::*;
use crate::error::{status_of, AppError, STATUS_BAD_REQUEST, STATUS_INTERNAL_ERROR, STATUS_NOT_FOUND};
use crate::model::{default_content_type, string_or, text_or, DownloadHeaders, FileRecord};
use crate::object_id::{decode_hex, is_object_id_text, FileId};

verus! {

/// Filename announced where the record holds none.
pub open spec fn default_download_name() -> Seq<char> {
    "download"@
}

/// `Content-Disposition` value that offers the payload as `filename`.
pub open spec fn attachment_text(filename: Seq<char>) -> Seq<char> {
    "attachment; filename=\""@ + filename + "\""@
}

/// Reads the download key; anything but an identifier's text is refused.
pub fn parse_file_id(key: &str) -> (r: Result<FileId, AppError>)
    ensures
        r is Err <==> !is_object_id_text(key@),
        r matches Err(e) ==> e is InvalidObjectId && status_of(e) == STATUS_BAD_REQUEST,
        r matches Ok(id) ==> id.bytes@ == decode_hex(key@),
{
    match FileId::parse_str(key) {
        Some(id) => Ok(id),
        None => Err(AppError::InvalidObjectId),
    }
}

/// Outcome of looking a record up: an absent record is a file that is not
/// there; a failed lookup is a store failure that carries the store's message.
pub fn found_record(lookup: Result<Option<FileRecord>, String>) -> (r: Result<FileRecord, AppError>)
    ensures
        match lookup {
            Ok(Some(rec)) => r == Ok::<FileRecord, AppError>(rec),
            Ok(None) => r matches Err(e) && e is FileNotFound && status_of(e) == STATUS_NOT_FOUND,
            Err(m) => r matches Err(e) && e matches AppError::DatabaseError(d) && d@ == m@
                && status_of(e) == STATUS_INTERNAL_ERROR,
        },
{
    match lookup {
        Ok(Some(rec)) => Ok(rec),
        Ok(None) => Err(AppError::FileNotFound),
        Err(m) => Err(AppError::DatabaseError(m)),
    }
}

/// Outcome of opening and reading the payload: any failure reads as a file
/// that is not there.
pub fn payload_or_not_found(read: Result<Vec<u8>, String>) -> (r: Result<Vec<u8>, AppError>)
    ensures
        match read {
            Ok(bytes) => r matches Ok(b) && b@ == bytes@,
            Err(_) => r matches Err(e) && e is FileNotFound && status_of(e) == STATUS_NOT_FOUND,
        },
{
    match read {
        Ok(bytes) => Ok(bytes),
        Err(_) => Err(AppError::FileNotFound),
    }
}

/// `Content-Disposition` value for `filename`.
pub fn attachment_header(filename: &str) -> (r: String)
    ensures
        r@ == attachment_text(filename@),
{
    let mut r = String::from_str("attachment; filename=\"");
    r.append(filename);
    r.append("\"");
    r
}

/// Headers that accompany the payload of `record`.
pub fn download_headers(record: &FileRecord) -> (r: DownloadHeaders)
    ensures
        r.content_type@ == text_or(record.content_type, default_content_type()),
        r.content_disposition@ == attachment_text(text_or(record.filename, default_download_name())),
{
    let content_type = string_or(&record.content_type, "application/octet-stream");
    let filename = string_or(&record.filename, "download");
    let content_disposition = attachment_header(filename.as_str());
    DownloadHeaders { content_type, content_disposition }
}

} // verus!
