//! Errors of the service.

use vstd::prelude::*;

verus! {

/// Error of a service operation; the variant tells the subsystem that refused.
#[derive(Debug)]
pub enum ServiceError {
    Api(String),
    Config(String),
    Policy(String),
    Other(String),
}

/// HTTP status the API answers a refused request with.
#[derive(Debug, Clone, Copy, PartialEq, Eq, Structural)]
pub enum ApiStatus {
    Unauthorized,
    TooManyRequests,
    BadRequest,
    InternalServerError,
}

impl ApiStatus {
    /// Numeric HTTP status code.
    pub fn code(&self) -> (r: u16)
        ensures
            r == match *self {
                ApiStatus::Unauthorized => 401u16,
                ApiStatus::TooManyRequests => 429u16,
                ApiStatus::BadRequest => 400u16,
                ApiStatus::InternalServerError => 500u16,
            },
    {
        match self {
            ApiStatus::Unauthorized => 401,
            ApiStatus::TooManyRequests => 429,
            ApiStatus::BadRequest => 400,
            ApiStatus::InternalServerError => 500,
        }
    }
}

} // verus!
