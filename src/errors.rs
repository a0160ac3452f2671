use vstd::prelude::*;

verus! {

/// Status code of a request that the caller got wrong.
pub const STATUS_BAD_REQUEST: u16 = 400;
/// Status code of a request without the needed authority.
pub const STATUS_UNAUTHORIZED: u16 = 401;
/// Status code of a read that found nothing.
pub const STATUS_NOT_FOUND: u16 = 404;
/// Status code of a failure on the service's side.
pub const STATUS_INTERNAL_SERVER_ERROR: u16 = 500;

/// Failures of the tweet store.
#[derive(Debug, PartialEq, Eq, Structural, Clone, Copy)]
pub enum RepositoryError {
    /// A read found no record under the id.
    RecordNotFound,
    /// An opaque document is not well-formed JSON, on encode or on decode.
    InvalidRecord,
    /// A value could not be serialised.
    SerializationError,
}

impl RepositoryError {
    pub open spec fn kind_name(self) -> Seq<char> {
        match self {
            RepositoryError::RecordNotFound => "record_not_found"@,
            RepositoryError::InvalidRecord => "invalid_record"@,
            RepositoryError::SerializationError => "serialization_error"@,
        }
    }

    /// Machine-readable name of the error.
    pub fn error_type(&self) -> (r: String)
        ensures
            r@ == self.kind_name(),
    {
        match self {
            RepositoryError::RecordNotFound => String::from_str("record_not_found"),
            RepositoryError::InvalidRecord => String::from_str("invalid_record"),
            RepositoryError::SerializationError => String::from_str("serialization_error"),
        }
    }

    /// Status code of the error: a read miss is "not found", the rest are
    /// internal failures.
    pub fn status_code(&self) -> (r: u16)
        ensures
            r == (if *self == RepositoryError::RecordNotFound {
                STATUS_NOT_FOUND
            } else {
                STATUS_INTERNAL_SERVER_ERROR
            }),
    {
        match self {
            RepositoryError::RecordNotFound => STATUS_NOT_FOUND,
            RepositoryError::InvalidRecord => STATUS_INTERNAL_SERVER_ERROR,
            RepositoryError::SerializationError => STATUS_INTERNAL_SERVER_ERROR,
        }
    }
}

/// Failure of the storage backend itself.
#[derive(Debug, PartialEq, Eq, Structural, Clone, Copy)]
pub enum DBExecutorError {
    DBError,
}

impl DBExecutorError {
    /// Machine-readable name of the error.
    pub fn error_type(&self) -> (r: String)
        ensures
            r@ == "db_error"@,
    {
        String::from_str("db_error")
    }

    pub fn status_code(&self) -> (r: u16)
        ensures
            r == STATUS_INTERNAL_SERVER_ERROR,
    {
        STATUS_INTERNAL_SERVER_ERROR
    }
}

/// Failures of an outbound HTTP call.
#[derive(Debug, PartialEq, Eq, Structural, Clone, Copy)]
pub enum HttpClientError {
    InvalidBody,
    HttpError,
}

impl HttpClientError {
    pub open spec fn kind_name(self) -> Seq<char> {
        match self {
            HttpClientError::InvalidBody => "invalid_body"@,
            HttpClientError::HttpError => "http_error"@,
        }
    }

    /// Machine-readable name of the error.
    pub fn error_type(&self) -> (r: String)
        ensures
            r@ == self.kind_name(),
    {
        match self {
            HttpClientError::InvalidBody => String::from_str("invalid_body"),
            HttpClientError::HttpError => String::from_str("http_error"),
        }
    }

    pub fn status_code(&self) -> (r: u16)
        ensures
            r == STATUS_INTERNAL_SERVER_ERROR,
    {
        STATUS_INTERNAL_SERVER_ERROR
    }
}

/// Failure of the remote source as seen by the repository.
#[derive(Debug, PartialEq, Eq, Structural, Clone, Copy)]
pub enum TweetRepoError {
    HttpClientError,
}

impl TweetRepoError {
    /// Machine-readable name of the error.
    pub fn error_type(&self) -> (r: String)
        ensures
            r@ == "http_client_error"@,
    {
        String::from_str("http_client_error")
    }

    pub fn status_code(&self) -> (r: u16)
        ensures
            r == STATUS_INTERNAL_SERVER_ERROR,
    {
        STATUS_INTERNAL_SERVER_ERROR
    }
}

/// Errors that concern the whole service rather than one component.
#[derive(Debug, PartialEq, Eq, Structural, Clone, Copy)]
pub enum GeneralError {
    SerializationError,
    InvalidAuthority,
}

impl GeneralError {
    pub open spec fn kind_name(self) -> Seq<char> {
        match self {
            GeneralError::SerializationError => "serialization_error"@,
            GeneralError::InvalidAuthority => "invalid_authority"@,
        }
    }

    /// Machine-readable name of the error.
    pub fn error_type(&self) -> (r: String)
        ensures
            r@ == self.kind_name(),
    {
        match self {
            GeneralError::SerializationError => String::from_str("serialization_error"),
            GeneralError::InvalidAuthority => String::from_str("invalid_authority"),
        }
    }

    /// A malformed request is the caller's fault; a missing authority is
    /// "unauthorized".
    pub fn status_code(&self) -> (r: u16)
        ensures
            r == (if *self == GeneralError::SerializationError {
                STATUS_BAD_REQUEST
            } else {
                STATUS_UNAUTHORIZED
            }),
    {
        match self {
            GeneralError::SerializationError => STATUS_BAD_REQUEST,
            GeneralError::InvalidAuthority => STATUS_UNAUTHORIZED,
        }
    }
}

} // verus!
