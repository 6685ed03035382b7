//! The service's error type and how each error is reported to clients.
use vstd::prelude::*;
use vstd::string::StringExecFns;
use crate::text::owned;

verus! {

/// Everything that can go wrong while serving a request.
#[derive(Debug, Clone)]
pub enum AppError {
    DatabaseError(String),
    NotFound(String),
    ValidationError(String),
    AuthenticationError(String),
    AuthorizationError(String),
    ConflictError(String),
    InternalError(String),
}

impl AppError {
    /// The message that the error carries.
    pub open spec fn detail(self) -> Seq<char> {
        match self {
            AppError::DatabaseError(m) => m@,
            AppError::NotFound(m) => m@,
            AppError::ValidationError(m) => m@,
            AppError::AuthenticationError(m) => m@,
            AppError::AuthorizationError(m) => m@,
            AppError::ConflictError(m) => m@,
            AppError::InternalError(m) => m@,
        }
    }

    /// The human-readable heading that precedes the message.
    pub open spec fn heading(self) -> Seq<char> {
        match self {
            AppError::DatabaseError(_) => "Database error: "@,
            AppError::NotFound(_) => "Not found: "@,
            AppError::ValidationError(_) => "Validation error: "@,
            AppError::AuthenticationError(_) => "Authentication error: "@,
            AppError::AuthorizationError(_) => "Authorization error: "@,
            AppError::ConflictError(_) => "Conflict: "@,
            AppError::InternalError(_) => "Internal error: "@,
        }
    }

    /// The HTTP status with which the error is answered.
    pub open spec fn spec_status(self) -> u16 {
        match self {
            AppError::DatabaseError(_) => 500,
            AppError::NotFound(_) => 404,
            AppError::ValidationError(_) => 400,
            AppError::AuthenticationError(_) => 401,
            AppError::AuthorizationError(_) => 403,
            AppError::ConflictError(_) => 409,
            AppError::InternalError(_) => 500,
        }
    }

    /// The machine-readable code sent in the `error` field of the answer.
    pub open spec fn code(self) -> Seq<char> {
        match self {
            AppError::DatabaseError(_) => "database_error"@,
            AppError::NotFound(_) => "not_found"@,
            AppError::ValidationError(_) => "validation_error"@,
            AppError::AuthenticationError(_) => "authentication_error"@,
            AppError::AuthorizationError(_) => "authorization_error"@,
            AppError::ConflictError(_) => "conflict"@,
            AppError::InternalError(_) => "internal_error"@,
        }
    }

    /// The message that the error carries.
    pub fn message(&self) -> (m: &String)
        ensures
            m@ == self.detail(),
    {
        match self {
            AppError::DatabaseError(m) => m,
            AppError::NotFound(m) => m,
            AppError::ValidationError(m) => m,
            AppError::AuthenticationError(m) => m,
            AppError::AuthorizationError(m) => m,
            AppError::ConflictError(m) => m,
            AppError::InternalError(m) => m,
        }
    }

    /// The error as text: its heading followed by its message.
    pub fn to_string(&self) -> (s: String)
        ensures
            s@ == self.heading() + self.detail(),
    {
        let heading = match self {
            AppError::DatabaseError(_) => owned("Database error: "),
            AppError::NotFound(_) => owned("Not found: "),
            AppError::ValidationError(_) => owned("Validation error: "),
            AppError::AuthenticationError(_) => owned("Authentication error: "),
            AppError::AuthorizationError(_) => owned("Authorization error: "),
            AppError::ConflictError(_) => owned("Conflict: "),
            AppError::InternalError(_) => owned("Internal error: "),
        };
        heading.concat(self.message().as_str())
    }

    /// The HTTP status with which the error is answered.
    pub fn status_code(&self) -> (c: u16)
        ensures
            c == self.spec_status(),
    {
        match self {
            AppError::DatabaseError(_) => 500,
            AppError::NotFound(_) => 404,
            AppError::ValidationError(_) => 400,
            AppError::AuthenticationError(_) => 401,
            AppError::AuthorizationError(_) => 403,
            AppError::ConflictError(_) => 409,
            AppError::InternalError(_) => 500,
        }
    }

    /// The machine-readable code sent in the `error` field of the answer.
    pub fn error_code(&self) -> (c: String)
        ensures
            c@ == self.code(),
    {
        match self {
            AppError::DatabaseError(_) => owned("database_error"),
            AppError::NotFound(_) => owned("not_found"),
            AppError::ValidationError(_) => owned("validation_error"),
            AppError::AuthenticationError(_) => owned("authentication_error"),
            AppError::AuthorizationError(_) => owned("authorization_error"),
            AppError::ConflictError(_) => owned("conflict"),
            AppError::InternalError(_) => owned("internal_error"),
        }
    }
}


/// Each error is answered with its own status and code: a missing record with
/// 404, a refused request with 400, a missing or bad login with 401, a
/// forbidden action with 403, a conflict with 409, and failures of the server
/// with 500; its text is its heading followed by its message.
pub proof fn law_error_answers(e: AppError)
    ensures
        e is NotFound ==> e.spec_status() == 404 && e.code() == "not_found"@,
        e is ValidationError ==> e.spec_status() == 400 && e.code() == "validation_error"@,
        e is AuthenticationError ==> e.spec_status() == 401 && e.code() == "authentication_error"@,
        e is AuthorizationError ==> e.spec_status() == 403 && e.code() == "authorization_error"@,
        e is ConflictError ==> e.spec_status() == 409 && e.code() == "conflict"@,
        e is DatabaseError ==> e.spec_status() == 500 && e.code() == "database_error"@,
        e is InternalError ==> e.spec_status() == 500 && e.code() == "internal_error"@,
        e.spec_status() >= 500 <==> (e is DatabaseError || e is InternalError),
{
}

} // verus!
