//! Failure taxonomy shared by every component: each variant carries a
//! user-visible message and maps to one HTTP status code.

use vstd::prelude::*;

verus! {

/// An application-level failure. `Unauthorized` covers missing, malformed or
/// invalid credentials and tokens (HTTP 401); `Forbidden` covers an
/// authenticated principal whose role does not allow the route (HTTP 403).
#[derive(Debug, Clone)]
pub enum AppError {
    Database(String),
    NotFound(String),
    BadRequest(String),
    Unauthorized(String),
    Forbidden(String),
    Conflict(String),
    InternalError(String),
}

pub type AppResult<T> = Result<T, AppError>;

impl AppError {
    /// The HTTP status code of the response this error turns into.
    pub open spec fn spec_status_code(&self) -> u16 {
        match self {
            AppError::Database(_) => 500,
            AppError::NotFound(_) => 404,
            AppError::BadRequest(_) => 400,
            AppError::Unauthorized(_) => 401,
            AppError::Forbidden(_) => 403,
            AppError::Conflict(_) => 409,
            AppError::InternalError(_) => 500,
        }
    }

    /// The user-visible message carried by this error.
    pub open spec fn spec_message(&self) -> Seq<char> {
        match self {
            AppError::Database(m) => m@,
            AppError::NotFound(m) => m@,
            AppError::BadRequest(m) => m@,
            AppError::Unauthorized(m) => m@,
            AppError::Forbidden(m) => m@,
            AppError::Conflict(m) => m@,
            AppError::InternalError(m) => m@,
        }
    }

    /// This error is `Unauthorized` and carries exactly `msg`.
    pub open spec fn is_unauthorized(self, msg: Seq<char>) -> bool {
        self matches AppError::Unauthorized(m) && m@ == msg
    }

    /// This error is `Forbidden` and carries exactly `msg`.
    pub open spec fn is_forbidden(self, msg: Seq<char>) -> bool {
        self matches AppError::Forbidden(m) && m@ == msg
    }

    /// This error is `BadRequest` and carries exactly `msg`.
    pub open spec fn is_bad_request(self, msg: Seq<char>) -> bool {
        self matches AppError::BadRequest(m) && m@ == msg
    }

    /// This error is `InternalError` and carries exactly `msg`.
    pub open spec fn is_internal(self, msg: Seq<char>) -> bool {
        self matches AppError::InternalError(m) && m@ == msg
    }

    pub fn status_code(&self) -> (code: u16)
        ensures
            code == self.spec_status_code(),
    {
        match self {
            AppError::Database(_) => 500,
            AppError::NotFound(_) => 404,
            AppError::BadRequest(_) => 400,
            AppError::Unauthorized(_) => 401,
            AppError::Forbidden(_) => 403,
            AppError::Conflict(_) => 409,
            AppError::InternalError(_) => 500,
        }
    }

    pub fn message(&self) -> (m: &str)
        ensures
            m@ == self.spec_message(),
    {
        match self {
            AppError::Database(m) => m.as_str(),
            AppError::NotFound(m) => m.as_str(),
            AppError::BadRequest(m) => m.as_str(),
            AppError::Unauthorized(m) => m.as_str(),
            AppError::Forbidden(m) => m.as_str(),
            AppError::Conflict(m) => m.as_str(),
            AppError::InternalError(m) => m.as_str(),
        }
    }
}

} // verus!
