//! Request/response logic of a small time-limited file store: the error
//! taxonomy and its HTTP mapping, the decisions of the upload, download and
//! list operations, and the textual forms of identifiers and timestamps.
pub mod download;
pub mod error;
pub mod lifecycle;
pub mod listing;
pub mod model;
pub mod object_id;
pub mod timestamp;
pub mod upload;

pub use error::{AppError, ErrorResponse};
pub use model::{DownloadHeaders, FieldMeta, FileInfo, FileRecord, UploadResponse, UploadTarget};
pub use object_id::FileId;
