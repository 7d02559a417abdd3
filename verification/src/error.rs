//! The error taxonomy surfaced to callers. Every core operation returns a
//! typed failure; the transport layer maps each variant to a fixed status
//! code and a machine-readable tag.

use vstd::prelude::*;
use vstd::string::StringExecFns;

verus! {

/// A typed failure of a core operation, each carrying a human-readable
/// detail message.
#[derive(Debug, Clone)]
pub enum ApiError {
    BadRequest(String),
    Unauthorized(String),
    Forbidden(String),
    NotFound(String),
    Conflict(String),
    InternalServerError(String),
    DatabaseError(String),
    ValidationError(String),
}

impl ApiError {
    /// The HTTP status code this variant is mapped to.
    pub open spec fn spec_status_code(&self) -> int {
        match self {
            ApiError::BadRequest(_) => 400,
            ApiError::Unauthorized(_) => 401,
            ApiError::Forbidden(_) => 403,
            ApiError::NotFound(_) => 404,
            ApiError::Conflict(_) => 409,
            ApiError::InternalServerError(_) => 500,
            ApiError::DatabaseError(_) => 500,
            ApiError::ValidationError(_) => 422,
        }
    }

    /// The machine-readable tag this variant is mapped to.
    pub open spec fn spec_error_tag(&self) -> Seq<char> {
        match self {
            ApiError::BadRequest(_) => "BAD_REQUEST"@,
            ApiError::Unauthorized(_) => "UNAUTHORIZED"@,
            ApiError::Forbidden(_) => "FORBIDDEN"@,
            ApiError::NotFound(_) => "NOT_FOUND"@,
            ApiError::Conflict(_) => "CONFLICT"@,
            ApiError::InternalServerError(_) => "INTERNAL_SERVER_ERROR"@,
            ApiError::DatabaseError(_) => "DATABASE_ERROR"@,
            ApiError::ValidationError(_) => "VALIDATION_ERROR"@,
        }
    }

    /// The detail message carried by the variant.
    pub open spec fn spec_detail(&self) -> Seq<char> {
        match self {
            ApiError::BadRequest(m) => m@,
            ApiError::Unauthorized(m) => m@,
            ApiError::Forbidden(m) => m@,
            ApiError::NotFound(m) => m@,
            ApiError::Conflict(m) => m@,
            ApiError::InternalServerError(m) => m@,
            ApiError::DatabaseError(m) => m@,
            ApiError::ValidationError(m) => m@,
        }
    }

    /// The human-readable category prefix used when rendering the error
    /// as a single line of text.
    pub open spec fn spec_category(&self) -> Seq<char> {
        match self {
            ApiError::BadRequest(_) => "Bad Request: "@,
            ApiError::Unauthorized(_) => "Unauthorized: "@,
            ApiError::Forbidden(_) => "Forbidden: "@,
            ApiError::NotFound(_) => "Not Found: "@,
            ApiError::Conflict(_) => "Conflict: "@,
            ApiError::InternalServerError(_) => "Internal Server Error: "@,
            ApiError::DatabaseError(_) => "Database Error: "@,
            ApiError::ValidationError(_) => "Validation Error: "@,
        }
    }

    /// The fixed status code of this error category.
    pub fn status_code(&self) -> (code: u16)
        ensures
            code == self.spec_status_code(),
    {
        match self {
            ApiError::BadRequest(_) => 400,
            ApiError::Unauthorized(_) => 401,
            ApiError::Forbidden(_) => 403,
            ApiError::NotFound(_) => 404,
            ApiError::Conflict(_) => 409,
            ApiError::InternalServerError(_) => 500,
            ApiError::DatabaseError(_) => 500,
            ApiError::ValidationError(_) => 422,
        }
    }

    /// The fixed machine-readable tag of this error category.
    pub fn error_tag(&self) -> (tag: &'static str)
        ensures
            tag@ == self.spec_error_tag(),
    {
        match self {
            ApiError::BadRequest(_) => "BAD_REQUEST",
            ApiError::Unauthorized(_) => "UNAUTHORIZED",
            ApiError::Forbidden(_) => "FORBIDDEN",
            ApiError::NotFound(_) => "NOT_FOUND",
            ApiError::Conflict(_) => "CONFLICT",
            ApiError::InternalServerError(_) => "INTERNAL_SERVER_ERROR",
            ApiError::DatabaseError(_) => "DATABASE_ERROR",
            ApiError::ValidationError(_) => "VALIDATION_ERROR",
        }
    }

    /// The detail message carried by this error.
    pub fn detail(&self) -> (m: &str)
        ensures
            m@ == self.spec_detail(),
    {
        match self {
            ApiError::BadRequest(m) => m.as_str(),
            ApiError::Unauthorized(m) => m.as_str(),
            ApiError::Forbidden(m) => m.as_str(),
            ApiError::NotFound(m) => m.as_str(),
            ApiError::Conflict(m) => m.as_str(),
            ApiError::InternalServerError(m) => m.as_str(),
            ApiError::DatabaseError(m) => m.as_str(),
            ApiError::ValidationError(m) => m.as_str(),
        }
    }

    /// Renders the error as a single line: the category prefix followed by
    /// the detail message.
    pub fn display_string(&self) -> (line: String)
        ensures
            line@ == self.spec_category() + self.spec_detail(),
    {
        let mut line: String = match self {
            ApiError::BadRequest(_) => "Bad Request: ".to_owned(),
            ApiError::Unauthorized(_) => "Unauthorized: ".to_owned(),
            ApiError::Forbidden(_) => "Forbidden: ".to_owned(),
            ApiError::NotFound(_) => "Not Found: ".to_owned(),
            ApiError::Conflict(_) => "Conflict: ".to_owned(),
            ApiError::InternalServerError(_) => "Internal Server Error: ".to_owned(),
            ApiError::DatabaseError(_) => "Database Error: ".to_owned(),
            ApiError::ValidationError(_) => "Validation Error: ".to_owned(),
        };
        line.append(self.detail());
        line
    }
}

} // verus!
