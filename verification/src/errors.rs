use vstd::prelude::*;

verus! {

/// The errors that requests end in, each with the message shown to the
/// user.
#[derive(Debug)]
pub enum AppError {
    /// The request is malformed or breaks a rule (HTTP 400).
    BadRequest(String),
    /// A referenced record does not exist (HTTP 404).
    NotFound(String),
    /// The request clashes with an existing record (HTTP 409).
    Conflict(String),
    /// Storage or another service failed (HTTP 500).
    Internal(String),
}

/// Kind of an error, without its message.
#[derive(Debug)]
pub enum ErrorKind {
    BadRequest,
    NotFound,
    Conflict,
    Internal,
}

impl AppError {
    /// The message of an error, whatever its kind.
    pub open spec fn message(&self) -> Seq<char> {
        match self {
            AppError::BadRequest(m) => m@,
            AppError::NotFound(m) => m@,
            AppError::Conflict(m) => m@,
            AppError::Internal(m) => m@,
        }
    }

    /// The kind of an error.
    pub open spec fn kind(&self) -> ErrorKind {
        match self {
            AppError::BadRequest(_) => ErrorKind::BadRequest,
            AppError::NotFound(_) => ErrorKind::NotFound,
            AppError::Conflict(_) => ErrorKind::Conflict,
            AppError::Internal(_) => ErrorKind::Internal,
        }
    }

    /// Whether the error is a bad request with exactly this message.
    pub open spec fn is_bad_request(&self, msg: Seq<char>) -> bool {
        self is BadRequest && self.message() == msg
    }

    /// Whether the error is a not-found error with exactly this message.
    pub open spec fn is_not_found(&self, msg: Seq<char>) -> bool {
        self is NotFound && self.message() == msg
    }

    /// Whether the error is a conflict with exactly this message.
    pub open spec fn is_conflict(&self, msg: Seq<char>) -> bool {
        self is Conflict && self.message() == msg
    }
}

/// Builds a bad-request error from a message.
pub fn bad_request(msg: &str) -> (e: AppError)
    ensures
        e.is_bad_request(msg@),
{
    AppError::BadRequest(String::from_str(msg))
}

/// Builds a not-found error from a message.
pub fn not_found(msg: &str) -> (e: AppError)
    ensures
        e.is_not_found(msg@),
{
    AppError::NotFound(String::from_str(msg))
}

/// Builds a conflict error from a message.
pub fn conflict(msg: &str) -> (e: AppError)
    ensures
        e.is_conflict(msg@),
{
    AppError::Conflict(String::from_str(msg))
}

} // verus!
