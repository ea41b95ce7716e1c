use usage_gate::error::{ApiError, MiddlewareError, ServerResponse};

#[test]
fn error_messages() {
    assert_eq!(MiddlewareError::InvalidToken("Invalid API key".to_string()).message(), "Invalid token: Invalid API key");
    assert_eq!(MiddlewareError::MissingToken.message(), "Missing authentication token");
    assert_eq!(MiddlewareError::CacheError("down".to_string()).message(), "Redis error: down");
    assert_eq!(MiddlewareError::UsageLimitExceeded("x".to_string()).message(), "Usage limit exceeded: x");
    assert_eq!(MiddlewareError::ConfigError("x".to_string()).message(), "Stripe Metadata config error");
}

#[test]
fn error_responses() {
    let r = MiddlewareError::UsageLimitExceeded("over".to_string()).into_response();
    assert_eq!(r.status, 403);
    assert!(matches!(r.error, ApiError::Authorization(ref m) if m == "over"));
    let r = MiddlewareError::MissingToken.into_response();
    assert_eq!(r.status, 401);
    assert!(matches!(r.error, ApiError::Authentication(ref m) if m == "Authentication token is missing"));
    let r = MiddlewareError::DatabaseError("secret detail".to_string()).into_response();
    assert_eq!(r.status, 500);
    assert!(matches!(r.error, ApiError::Internal(ref m) if m == "Database error occurred"));
    let r = MiddlewareError::NotFound("tier".to_string()).into_response();
    assert_eq!(r.status, 404);
}

#[test]
fn response_constructors() {
    assert_eq!(ServerResponse::bad_request("b".to_string()).status, 400);
    assert_eq!(ServerResponse::forbidden("f".to_string()).status, 403);
    assert_eq!(ServerResponse::server_error("s".to_string()).status, 500);
}
