//! The errors the REST layer answers with, and how each is answered.
use vstd::prelude::*;
use vstd::string::StringExecFns;

verus! {

/// An error answer of the REST layer. Database and internal failures carry
/// the text of the failure that caused them.
#[derive(Debug)]
pub enum ApiError {
    NotFound(String),
    Unauthorized,
    Forbidden,
    BadRequest(String),
    Conflict(String),
    TooManyRequests,
    Database(String),
    Internal(String),
    Chain(String),
}

/// The HTTP status that answers `e`.
pub open spec fn status_of(e: ApiError) -> u16 {
    match e {
        ApiError::NotFound(_) => 404,
        ApiError::Unauthorized => 401,
        ApiError::Forbidden => 403,
        ApiError::BadRequest(_) => 400,
        ApiError::Conflict(_) => 409,
        ApiError::TooManyRequests => 429,
        ApiError::Database(_) => 500,
        ApiError::Internal(_) => 500,
        ApiError::Chain(_) => 502,
    }
}

/// The machine-readable code that answers `e`.
pub open spec fn code_of(e: ApiError) -> Seq<char> {
    match e {
        ApiError::NotFound(_) => "NOT_FOUND"@,
        ApiError::Unauthorized => "UNAUTHORIZED"@,
        ApiError::Forbidden => "FORBIDDEN"@,
        ApiError::BadRequest(_) => "BAD_REQUEST"@,
        ApiError::Conflict(_) => "CONFLICT"@,
        ApiError::TooManyRequests => "TOO_MANY_REQUESTS"@,
        ApiError::Database(_) => "DATABASE_ERROR"@,
        ApiError::Internal(_) => "INTERNAL_ERROR"@,
        ApiError::Chain(_) => "CHAIN_ERROR"@,
    }
}

/// The text that describes `e`.
pub open spec fn text_of(e: ApiError) -> Seq<char> {
    match e {
        ApiError::NotFound(m) => m@,
        ApiError::Unauthorized => "unauthorized"@,
        ApiError::Forbidden => "forbidden"@,
        ApiError::BadRequest(m) => m@,
        ApiError::Conflict(m) => m@,
        ApiError::TooManyRequests => "rate limit exceeded"@,
        ApiError::Database(m) => "database error: "@ + m@,
        ApiError::Internal(_) => "internal error"@,
        ApiError::Chain(m) => "chain error: "@ + m@,
    }
}

/// The message a caller sees for `e`: database and internal failures are
/// not disclosed.
pub open spec fn public_message_of(e: ApiError) -> Seq<char> {
    match e {
        ApiError::Database(_) => "An internal error occurred"@,
        ApiError::Internal(_) => "An internal error occurred"@,
        _ => text_of(e),
    }
}

impl ApiError {
    /// The HTTP status that answers this error.
    pub fn status_code(&self) -> (r: u16)
        ensures
            r == status_of(*self),
    {
        match self {
            ApiError::NotFound(_) => 404,
            ApiError::Unauthorized => 401,
            ApiError::Forbidden => 403,
            ApiError::BadRequest(_) => 400,
            ApiError::Conflict(_) => 409,
            ApiError::TooManyRequests => 429,
            ApiError::Database(_) => 500,
            ApiError::Internal(_) => 500,
            ApiError::Chain(_) => 502,
        }
    }

    /// The machine-readable code that answers this error.
    pub fn code(&self) -> (r: &'static str)
        ensures
            r@ == code_of(*self),
    {
        match self {
            ApiError::NotFound(_) => "NOT_FOUND",
            ApiError::Unauthorized => "UNAUTHORIZED",
            ApiError::Forbidden => "FORBIDDEN",
            ApiError::BadRequest(_) => "BAD_REQUEST",
            ApiError::Conflict(_) => "CONFLICT",
            ApiError::TooManyRequests => "TOO_MANY_REQUESTS",
            ApiError::Database(_) => "DATABASE_ERROR",
            ApiError::Internal(_) => "INTERNAL_ERROR",
            ApiError::Chain(_) => "CHAIN_ERROR",
        }
    }

    /// The text that describes this error.
    pub fn to_text(&self) -> (r: String)
        ensures
            r@ == text_of(*self),
    {
        match self {
            ApiError::NotFound(m) => m.clone(),
            ApiError::Unauthorized => "unauthorized".to_owned(),
            ApiError::Forbidden => "forbidden".to_owned(),
            ApiError::BadRequest(m) => m.clone(),
            ApiError::Conflict(m) => m.clone(),
            ApiError::TooManyRequests => "rate limit exceeded".to_owned(),
            ApiError::Database(m) => {
                let mut out = "database error: ".to_owned();
                out.append(m.as_str());
                out
            },
            ApiError::Internal(_) => "internal error".to_owned(),
            ApiError::Chain(m) => {
                let mut out = "chain error: ".to_owned();
                out.append(m.as_str());
                out
            },
        }
    }

    /// The message a caller sees for this error.
    pub fn public_message(&self) -> (r: String)
        ensures
            r@ == public_message_of(*self),
    {
        match self {
            ApiError::Database(_) => "An internal error occurred".to_owned(),
            ApiError::Internal(_) => "An internal error occurred".to_owned(),
            _ => self.to_text(),
        }
    }
}

} // verus!
