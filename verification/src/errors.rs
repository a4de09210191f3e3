//! The crate's error taxonomy.
//!
//! Every failure carries a machine-classifiable kind plus a human-readable
//! message.  Driver-level failures are classified once, at the executor
//! boundary, from a [`DbErrorKind`] that the caller extracts from its
//! database driver; they are never re-wrapped afterwards.

use vstd::prelude::*;
use crate::strutil::push_str;

verus! {

/// An error of the query and repository layer.
#[derive(Debug)]
pub enum ApiError {
    Authentication(String),
    Authorization(String),
    BadRequest(String),
    NotFound(String),
    Conflict(String),
    InternalServer(String),
    /// A driver-level failure, carrying the driver's message.
    Database(String),
    Serialization(String),
    /// An identifier was used that the entity does not declare.
    InvalidColumn(String),
    /// A structurally empty insert or update payload.
    InvalidQuery(String),
    RateLimitExceeded { client_id: String, max_requests: u32, window_secs: u64 },
}

/// The shape of a driver error as the executor hands it to the library:
/// either the required row was absent, or a constraint was violated, or
/// something else went wrong.
#[derive(Clone, Copy, Debug, PartialEq, Eq, Structural)]
pub enum DbErrorKind {
    RowNotFound,
    ConstraintViolation,
    OtherDatabase,
}

/// The outcome of a query: a value, or an [`ApiError`].
pub type QueryResult<T> = Result<T, ApiError>;

impl ApiError {
    /// The HTTP status code conventionally associated with this error kind.
    pub open spec fn spec_status(&self) -> u16 {
        match self {
            ApiError::Authentication(_) => 401u16,
            ApiError::Authorization(_) => 403u16,
            ApiError::BadRequest(_) => 400u16,
            ApiError::NotFound(_) => 404u16,
            ApiError::Conflict(_) => 409u16,
            ApiError::InternalServer(_) => 500u16,
            ApiError::Database(_) => 500u16,
            ApiError::Serialization(_) => 500u16,
            ApiError::InvalidColumn(_) => 400u16,
            ApiError::InvalidQuery(_) => 400u16,
            ApiError::RateLimitExceeded { .. } => 429u16,
        }
    }

    /// The HTTP status code conventionally associated with this error kind.
    pub fn status_code(&self) -> (code: u16)
        ensures
            code == self.spec_status(),
    {
        match self {
            ApiError::Authentication(_) => 401,
            ApiError::Authorization(_) => 403,
            ApiError::BadRequest(_) => 400,
            ApiError::NotFound(_) => 404,
            ApiError::Conflict(_) => 409,
            ApiError::InternalServer(_) => 500,
            ApiError::Database(_) => 500,
            ApiError::Serialization(_) => 500,
            ApiError::InvalidColumn(_) => 400,
            ApiError::InvalidQuery(_) => 400,
            ApiError::RateLimitExceeded { .. } => 429,
        }
    }

    /// The message text this error spells out: the prefix for its kind
    /// followed by the carried detail.
    pub open spec fn spec_describe(&self) -> Seq<char> {
        match self {
            ApiError::Authentication(m) => "Authentication error: "@ + m@,
            ApiError::Authorization(m) => "Authorization error: "@ + m@,
            ApiError::BadRequest(m) => "Validation error: "@ + m@,
            ApiError::NotFound(m) => "Resource not found: "@ + m@,
            ApiError::Conflict(m) => "Conflict error: "@ + m@,
            ApiError::InternalServer(m) => "Internal server error: "@ + m@,
            ApiError::Database(m) => "Database error: "@ + m@,
            ApiError::Serialization(m) => "Serialization error: "@ + m@,
            ApiError::InvalidColumn(m) => "Invalid column name: "@ + m@,
            ApiError::InvalidQuery(m) => "Invalid query: "@ + m@,
            ApiError::RateLimitExceeded { client_id, .. } => "Rate limit exceeded for client "@
                + client_id@,
        }
    }

    /// A human-readable rendering of the error.
    pub fn describe(&self) -> (r: String)
        ensures
            r@ == self.spec_describe(),
    {
        let mut out = String::new();
        match self {
            ApiError::Authentication(m) => {
                push_str(&mut out, "Authentication error: ");
                push_str(&mut out, m.as_str());
            },
            ApiError::Authorization(m) => {
                push_str(&mut out, "Authorization error: ");
                push_str(&mut out, m.as_str());
            },
            ApiError::BadRequest(m) => {
                push_str(&mut out, "Validation error: ");
                push_str(&mut out, m.as_str());
            },
            ApiError::NotFound(m) => {
                push_str(&mut out, "Resource not found: ");
                push_str(&mut out, m.as_str());
            },
            ApiError::Conflict(m) => {
                push_str(&mut out, "Conflict error: ");
                push_str(&mut out, m.as_str());
            },
            ApiError::InternalServer(m) => {
                push_str(&mut out, "Internal server error: ");
                push_str(&mut out, m.as_str());
            },
            ApiError::Database(m) => {
                push_str(&mut out, "Database error: ");
                push_str(&mut out, m.as_str());
            },
            ApiError::Serialization(m) => {
                push_str(&mut out, "Serialization error: ");
                push_str(&mut out, m.as_str());
            },
            ApiError::InvalidColumn(m) => {
                push_str(&mut out, "Invalid column name: ");
                push_str(&mut out, m.as_str());
            },
            ApiError::InvalidQuery(m) => {
                push_str(&mut out, "Invalid query: ");
                push_str(&mut out, m.as_str());
            },
            ApiError::RateLimitExceeded { client_id, .. } => {
                push_str(&mut out, "Rate limit exceeded for client ");
                push_str(&mut out, client_id.as_str());
            },
        }
        out
    }
}

/// Translates a driver error, read off as a [`DbErrorKind`], into the
/// library's taxonomy: an absent row is `NotFound`, a violated constraint
/// is `Conflict`, anything else is `InternalServer`.
pub fn classify_db_error(kind: DbErrorKind) -> (r: ApiError)
    ensures
        kind == DbErrorKind::RowNotFound ==> (r matches ApiError::NotFound(m) && m@
            == "Not found"@),
        kind == DbErrorKind::ConstraintViolation ==> (r matches ApiError::Conflict(m) && m@
            == "Already exists"@),
        kind == DbErrorKind::OtherDatabase ==> (r matches ApiError::InternalServer(m) && m@
            == "Database error"@),
{
    match kind {
        DbErrorKind::RowNotFound => ApiError::NotFound("Not found".to_owned()),
        DbErrorKind::ConstraintViolation => ApiError::Conflict("Already exists".to_owned()),
        DbErrorKind::OtherDatabase => ApiError::InternalServer("Database error".to_owned()),
    }
}

/// The error payload surfaced to API clients: a status code and a message.
#[derive(Debug)]
pub struct ErrorResponse {
    pub status: u16,
    pub message: String,
}

impl ErrorResponse {
    /// Builds the wire-level payload for an error.
    pub fn from_error(err: &ApiError) -> (r: ErrorResponse)
        ensures
            r.status == err.spec_status(),
            r.message@ == err.spec_describe(),
    {
        ErrorResponse { status: err.status_code(), message: err.describe() }
    }
}

} // verus!
