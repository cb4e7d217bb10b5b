use vstd::prelude::*;
use crate::error::{status_of, AppError, STATUS_INTERNAL_ERROR, STATUS_PAYLOAD_TOO_LARGE};
use crate::model::{default_content_type, string_or, text_or, FieldMeta, UploadResponse, UploadTarget};
use crate::object_id::{encode_hex, FileId};
use crate::timestamp::{expiry_text, expiry_to_text};

verus! {

/// Largest request body accepted, in bytes (100 MiB).
pub const MAX_BODY_BYTES: usize = 104_857_600;

/// Filename stored where the client gave none.
pub open spec fn default_upload_name() -> Seq<char> {
    "unknown"@
}

/// Message of the failure for a body without a file field.
pub open spec fn no_file_message() -> Seq<char> {
    "Nenhum arquivo enviado"@
}

/// Path under which a stored file is downloaded.
pub open spec fn download_path(id: FileId) -> Seq<char> {
    "/download/"@ + encode_hex(id.bytes@)
}

/// The failure of an upload whose body holds no file field.
pub fn no_file_error() -> (r: AppError)
    ensures
        r matches AppError::UploadError(m) && m@ == no_file_message(),
        status_of(r) == STATUS_INTERNAL_ERROR,
{
    AppError::UploadError(String::from_str("Nenhum arquivo enviado"))
}

/// Decides what to store for the first file field of an upload, if any.
pub fn accept_field(field: Option<FieldMeta>) -> (r: Result<UploadTarget, AppError>)
    ensures
        match field {
            None => r matches Err(e) && e matches AppError::UploadError(m)
                && m@ == no_file_message() && status_of(e) == STATUS_INTERNAL_ERROR,
            Some(f) => r matches Ok(t)
                && t.filename@ == text_or(f.file_name, default_upload_name())
                && t.content_type@ == text_or(f.content_type, default_content_type()),
        },
{
    match field {
        None => Err(no_file_error()),
        Some(f) => {
            let filename = string_or(&f.file_name, "unknown");
            let content_type = string_or(&f.content_type, "application/octet-stream");
            Ok(UploadTarget { filename, content_type })
        },
    }
}

/// The failure of reading the multipart body, given the HTTP status that the
/// body reader assigns to it: a body over the size ceiling is the client's
/// error; any other failure is an upload failure carrying its message.
pub fn multipart_failure(status: u16, message: String) -> (r: AppError)
    ensures
        status == STATUS_PAYLOAD_TOO_LARGE ==> r is PayloadTooLarge,
        status != STATUS_PAYLOAD_TOO_LARGE ==> (r matches AppError::UploadError(m) && m@ == message@),
{
    if status == STATUS_PAYLOAD_TOO_LARGE {
        AppError::PayloadTooLarge
    } else {
        AppError::UploadError(message)
    }
}

/// Outcome of one step of storing the payload: a failure is an upload
/// failure carrying its message.
pub fn upload_step<T>(outcome: Result<T, String>) -> (r: Result<T, AppError>)
    ensures
        match outcome {
            Ok(v) => r == Ok::<T, AppError>(v),
            Err(m) => r matches Err(e) && e matches AppError::UploadError(d) && d@ == m@
                && status_of(e) == STATUS_INTERNAL_ERROR,
        },
{
    match outcome {
        Ok(v) => Ok(v),
        Err(m) => Err(AppError::UploadError(m)),
    }
}

/// The outcome of an upload once setting the expiry of the stored payload
/// `id` to `expire_at` has succeeded or failed.
pub fn complete_upload(update: Result<(), String>, id: &FileId, expire_at: i64) -> (r: Result<UploadResponse, AppError>)
    ensures
        match update {
            Ok(_) => r matches Ok(resp)
                && resp.file_id@ == encode_hex(id.bytes@)
                && resp.download_url@ == download_path(*id)
                && resp.expires_at@ == expiry_text(expire_at),
            Err(m) => r matches Err(e) && e matches AppError::UploadError(d) && d@ == m@
                && status_of(e) == STATUS_INTERNAL_ERROR,
        },
{
    match update {
        Ok(_) => Ok(upload_response(id, expire_at)),
        Err(m) => Err(AppError::UploadError(m)),
    }
}

/// The body returned once the payload of `id` is stored with expiry `expire_at`.
pub fn upload_response(id: &FileId, expire_at: i64) -> (r: UploadResponse)
    ensures
        r.file_id@ == encode_hex(id.bytes@),
        r.download_url@ == download_path(*id),
        r.expires_at@ == expiry_text(expire_at),
{
    let file_id = id.to_hex();
    let mut download_url = String::from_str("/download/");
    download_url.append(file_id.as_str());
    let expires_at = expiry_to_text(expire_at);
    UploadResponse { file_id, download_url, expires_at }
}

} // verus!
