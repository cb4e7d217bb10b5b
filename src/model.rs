use vstd::prelude::*;
use crate::object_id::FileId;

verus! {

/// What the upload reads from the first file field of a multipart body.
pub struct FieldMeta {
    pub file_name: Option<String>,
    pub content_type: Option<String>,
}

/// Name and content type under which a payload is written to the store.
pub struct UploadTarget {
    pub filename: String,
    pub content_type: String,
}

/// A metadata record of the store, as far as the service reads it. Each
/// field is `None` where the record lacks it or holds a value of another type.
pub struct FileRecord {
    pub id: Option<FileId>,
    pub filename: Option<String>,
    pub content_type: Option<String>,
    /// Expiry instant, in milliseconds after the Unix epoch.
    pub expire_at: Option<i64>,
}

/// Body of a successful upload.
pub struct UploadResponse {
    pub file_id: String,
    pub download_url: String,
    pub expires_at: String,
}

/// One entry of the listing.
pub struct FileInfo {
    pub _id: String,
    pub filename: String,
    pub expire_at: String,
}

/// Headers of a successful download.
pub struct DownloadHeaders {
    pub content_type: String,
    pub content_disposition: String,
}

/// Content type assumed where none was given or stored.
pub open spec fn default_content_type() -> Seq<char> {
    "application/octet-stream"@
}

/// `Some` text, or the given default.
pub open spec fn text_or(o: Option<String>, default: Seq<char>) -> Seq<char> {
    match o {
        Some(s) => s@,
        None => default,
    }
}

/// Clones `Some` text, or makes the default.
pub fn string_or(o: &Option<String>, default: &str) -> (r: String)
    ensures
        r@ == text_or(*o, default@),
{
    match o {
        Some(s) => s.clone(),
        None => String::from_str(default),
    }
}

} // verus!
