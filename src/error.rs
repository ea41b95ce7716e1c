//! Request failures and the HTTP error responses that report them.

use vstd::prelude::*;
use vstd::string::StringExecFns;

verus! {

/// Why a request was turned away, or which dependency failed while serving it.
#[derive(Debug)]
pub enum MiddlewareError {
    OrgNotFound,
    NotFound(String),
    InvalidToken(String),
    MissingToken,
    ExpiredToken,
    InsufficientPermissions,
    DatabaseError(String),
    CacheError(String),
    StripeError(String),
    ConfigError(String),
    UsageLimitExceeded(String),
}

/// The text that describes `e`.
pub open spec fn error_text(e: MiddlewareError) -> Seq<char> {
    match e {
        MiddlewareError::OrgNotFound => "Organization not found"@,
        MiddlewareError::NotFound(_) => "Not found"@,
        MiddlewareError::InvalidToken(m) => "Invalid token: "@ + m@,
        MiddlewareError::MissingToken => "Missing authentication token"@,
        MiddlewareError::ExpiredToken => "Token has expired"@,
        MiddlewareError::InsufficientPermissions => "Insufficient permissions"@,
        MiddlewareError::DatabaseError(m) => "Database error: "@ + m@,
        MiddlewareError::CacheError(m) => "Redis error: "@ + m@,
        MiddlewareError::StripeError(m) => "Stripe error: "@ + m@,
        MiddlewareError::ConfigError(_) => "Stripe Metadata config error"@,
        MiddlewareError::UsageLimitExceeded(m) => "Usage limit exceeded: "@ + m@,
    }
}

fn prefixed(prefix: &str, detail: &String) -> (r: String)
    ensures
        r@ == prefix@ + detail@,
{
    let mut s = prefix.to_owned();
    s.append(detail.as_str());
    s
}

/// The error body that a response carries.
#[derive(Debug)]
pub enum ApiError {
    BadRequest(String),
    Authentication(String),
    Authorization(String),
    NotFound(String),
    Internal(String),
    RateLimit(String),
}

/// An error response: its HTTP status and its body.
#[derive(Debug)]
pub struct ServerResponse {
    pub status: u16,
    pub error: ApiError,
}

impl ServerResponse {
    pub fn bad_request(detail: String) -> (r: ServerResponse)
        ensures
            r.status == 400,
            r.error == ApiError::BadRequest(detail),
    {
        ServerResponse { status: 400, error: ApiError::BadRequest(detail) }
    }

    pub fn unauthorized(detail: String) -> (r: ServerResponse)
        ensures
            r.status == 401,
            r.error == ApiError::Authentication(detail),
    {
        ServerResponse { status: 401, error: ApiError::Authentication(detail) }
    }

    pub fn forbidden(detail: String) -> (r: ServerResponse)
        ensures
            r.status == 403,
            r.error == ApiError::Authorization(detail),
    {
        ServerResponse { status: 403, error: ApiError::Authorization(detail) }
    }

    pub fn not_found(detail: String) -> (r: ServerResponse)
        ensures
            r.status == 404,
            r.error == ApiError::NotFound(detail),
    {
        ServerResponse { status: 404, error: ApiError::NotFound(detail) }
    }

    /// A server failure; the body carries only `detail`, never the cause.
    pub fn server_error(detail: String) -> (r: ServerResponse)
        ensures
            r.status == 500,
            r.error == ApiError::Internal(detail),
    {
        ServerResponse { status: 500, error: ApiError::Internal(detail) }
    }
}

/// The status that reports `e`.
pub open spec fn status_of(e: MiddlewareError) -> u16 {
    match e {
        MiddlewareError::NotFound(_) => 404,
        MiddlewareError::OrgNotFound | MiddlewareError::InvalidToken(_) | MiddlewareError::MissingToken
        | MiddlewareError::ExpiredToken => 401,
        MiddlewareError::InsufficientPermissions | MiddlewareError::UsageLimitExceeded(_) => 403,
        _ => 500,
    }
}

impl MiddlewareError {
    /// The text that describes this error.
    pub fn message(&self) -> (r: String)
        ensures
            r@ == error_text(*self),
    {
        match self {
            MiddlewareError::OrgNotFound => "Organization not found".to_owned(),
            MiddlewareError::NotFound(_) => "Not found".to_owned(),
            MiddlewareError::InvalidToken(m) => prefixed("Invalid token: ", m),
            MiddlewareError::MissingToken => "Missing authentication token".to_owned(),
            MiddlewareError::ExpiredToken => "Token has expired".to_owned(),
            MiddlewareError::InsufficientPermissions => "Insufficient permissions".to_owned(),
            MiddlewareError::DatabaseError(m) => prefixed("Database error: ", m),
            MiddlewareError::CacheError(m) => prefixed("Redis error: ", m),
            MiddlewareError::StripeError(m) => prefixed("Stripe error: ", m),
            MiddlewareError::ConfigError(_) => "Stripe Metadata config error".to_owned(),
            MiddlewareError::UsageLimitExceeded(m) => prefixed("Usage limit exceeded: ", m),
        }
    }

    /// The response that reports this error: authentication failures are
    /// 401, refusals 403, and failures of the service 500 with a generic body.
    pub fn into_response(self) -> (r: ServerResponse)
        ensures
            r.status == status_of(self),
            match self {
                MiddlewareError::NotFound(m) => r.error == ApiError::NotFound(m),
                MiddlewareError::InvalidToken(m) => r.error == ApiError::Authentication(m),
                MiddlewareError::UsageLimitExceeded(m) => r.error == ApiError::Authorization(m),
                MiddlewareError::OrgNotFound => r.error matches ApiError::Authentication(d) && d@ == "Organization not found"@,
                MiddlewareError::MissingToken => r.error matches ApiError::Authentication(d) && d@ == "Authentication token is missing"@,
                MiddlewareError::ExpiredToken => r.error matches ApiError::Authentication(d) && d@ == "Authentication token has expired"@,
                MiddlewareError::InsufficientPermissions => r.error matches ApiError::Authorization(d) && d@ == "Insufficient permissions to access this resource"@,
                MiddlewareError::DatabaseError(_) => r.error matches ApiError::Internal(d) && d@ == "Database error occurred"@,
                MiddlewareError::CacheError(_) => r.error matches ApiError::Internal(d) && d@ == "Cache error occurred"@,
                MiddlewareError::StripeError(_) => r.error matches ApiError::Internal(d) && d@ == "Stripe error occurred"@,
                MiddlewareError::ConfigError(_) => r.error matches ApiError::Internal(d) && d@ == "Stripe metadata parsing error occurred"@,
            },
    {
        match self {
            MiddlewareError::NotFound(m) => ServerResponse::not_found(m),
            MiddlewareError::OrgNotFound => ServerResponse::unauthorized("Organization not found".to_owned()),
            MiddlewareError::InvalidToken(m) => ServerResponse::unauthorized(m),
            MiddlewareError::MissingToken => ServerResponse::unauthorized("Authentication token is missing".to_owned()),
            MiddlewareError::ExpiredToken => ServerResponse::unauthorized("Authentication token has expired".to_owned()),
            MiddlewareError::InsufficientPermissions => ServerResponse::forbidden(
                "Insufficient permissions to access this resource".to_owned(),
            ),
            MiddlewareError::DatabaseError(_) => ServerResponse::server_error("Database error occurred".to_owned()),
            MiddlewareError::CacheError(_) => ServerResponse::server_error("Cache error occurred".to_owned()),
            MiddlewareError::StripeError(_) => ServerResponse::server_error("Stripe error occurred".to_owned()),
            MiddlewareError::ConfigError(_) => ServerResponse::server_error(
                "Stripe metadata parsing error occurred".to_owned(),
            ),
            MiddlewareError::UsageLimitExceeded(m) => ServerResponse::forbidden(m),
        }
    }
}

} // verus!
