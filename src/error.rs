use vstd::prelude::*;

verus! {

/// Everything that can end a request without success.
pub enum AppError {
    /// The download key is not a well-formed identifier.
    InvalidObjectId,
    /// The request body exceeds the accepted size.
    PayloadTooLarge,
    /// No metadata record, or its payload could not be opened or read.
    FileNotFound,
    /// Reading the multipart body, writing the payload or setting its expiry failed.
    UploadError(String),
    /// The metadata store failed while looking up or listing records.
    DatabaseError(String),
}

/// Body of every non-success response: `{"detail": "..."}`.
pub struct ErrorResponse {
    pub detail: String,
}

pub const STATUS_BAD_REQUEST: u16 = 400;

pub const STATUS_NOT_FOUND: u16 = 404;

pub const STATUS_PAYLOAD_TOO_LARGE: u16 = 413;

pub const STATUS_INTERNAL_ERROR: u16 = 500;

/// HTTP status of each kind of error.
pub open spec fn status_of(e: AppError) -> u16 {
    match e {
        AppError::InvalidObjectId => STATUS_BAD_REQUEST,
        AppError::PayloadTooLarge => STATUS_PAYLOAD_TOO_LARGE,
        AppError::FileNotFound => STATUS_NOT_FOUND,
        AppError::UploadError(_) => STATUS_INTERNAL_ERROR,
        AppError::DatabaseError(_) => STATUS_INTERNAL_ERROR,
    }
}

/// Human-readable message of each kind of error; store and upload failures
/// pass their own message through.
pub open spec fn detail_of(e: AppError) -> Seq<char> {
    match e {
        AppError::InvalidObjectId => "ID inválido"@,
        AppError::PayloadTooLarge => "Arquivo excede o tamanho máximo"@,
        AppError::FileNotFound => "Arquivo não encontrado ou expirado"@,
        AppError::UploadError(m) => m@,
        AppError::DatabaseError(m) => m@,
    }
}

impl AppError {
    /// HTTP status of the response that reports this error.
    pub fn status_code(&self) -> (r: u16)
        ensures
            r == status_of(*self),
    {
        match self {
            AppError::InvalidObjectId => STATUS_BAD_REQUEST,
            AppError::PayloadTooLarge => STATUS_PAYLOAD_TOO_LARGE,
            AppError::FileNotFound => STATUS_NOT_FOUND,
            AppError::UploadError(_) => STATUS_INTERNAL_ERROR,
            AppError::DatabaseError(_) => STATUS_INTERNAL_ERROR,
        }
    }

    /// Message carried in the body of that response.
    pub fn detail(&self) -> (r: String)
        ensures
            r@ == detail_of(*self),
    {
        match self {
            AppError::InvalidObjectId => String::from_str("ID inválido"),
            AppError::PayloadTooLarge => String::from_str("Arquivo excede o tamanho máximo"),
            AppError::FileNotFound => String::from_str("Arquivo não encontrado ou expirado"),
            AppError::UploadError(m) => m.clone(),
            AppError::DatabaseError(m) => m.clone(),
        }
    }

    /// The status and body of the response that reports this error.
    pub fn into_response_parts(self) -> (r: (u16, ErrorResponse))
        ensures
            r.0 == status_of(self),
            r.1.detail@ == detail_of(self),
    {
        let status = self.status_code();
        let detail = self.detail();
        (status, ErrorResponse { detail })
    }
}

} // verus!
