use usage_gate::credentials::{
    authenticate, extract_api_key, find_and_validate_key, generate_api_key_prefix, verify_password, ApiKeyRecord,
    ApiKeyType,
};
use usage_gate::error::MiddlewareError;

const ORG: u128 = 7;

fn record(id: u128, org: u128, secret: &str, prefix_of: &str, expires_at: Option<i64>) -> ApiKeyRecord {
    ApiKeyRecord {
        id,
        organization_id: org,
        key_prefix: generate_api_key_prefix(prefix_of),
        key_hash: bcrypt::hash(secret, 4).unwrap(),
        key_type: ApiKeyType::ReadWrite,
        created_by: 1,
        last_used_at: None,
        expires_at,
    }
}

#[test]
fn prefix_hashes_first_eight_bytes() {
    assert_eq!(
        generate_api_key_prefix("abcdefgh-rest-of-the-secret"),
        "9c56cc51b374c3ba189210d5b6d4bf57790d351c96c47c02190ecf1e430635ab"
    );
    assert_eq!(generate_api_key_prefix("abcdefgh"), generate_api_key_prefix("abcdefghXYZ"));
}

#[test]
fn prefix_of_short_key_hashes_whole_key() {
    assert_eq!(generate_api_key_prefix("abc"), "ba7816bf8f01cfea414140de5dae2223b00361a396177a9cb410ff61f20015ad");
    assert_eq!(generate_api_key_prefix(""), "e3b0c44298fc1c149afbf4c8996fb92427ae41e4649b934ca495991b7852b855");
}

#[test]
fn matching_key_is_returned() {
    let secret = "sk_live_0123456789";
    let keys = vec![
        record(1, ORG, "sk_live_other", "sk_live_other", None),
        record(2, ORG, secret, secret, Some(2_000)),
    ];
    let k = find_and_validate_key(secret, ORG, keys, 1_000).unwrap();
    assert_eq!(k.id, 2);
}

#[test]
fn wrong_secret_is_invalid() {
    let keys = vec![record(1, ORG, "sk_live_0123456789", "sk_live_0123456789", None)];
    let r = find_and_validate_key("sk_live_9999999999", ORG, keys, 0);
    assert!(matches!(r, Err(MiddlewareError::InvalidToken(_))));
}

#[test]
fn key_of_another_organization_is_invalid() {
    let secret = "sk_live_0123456789";
    let keys = vec![record(1, ORG + 1, secret, secret, None)];
    assert!(matches!(find_and_validate_key(secret, ORG, keys, 0), Err(MiddlewareError::InvalidToken(_))));
}

#[test]
fn expired_key_is_refused() {
    let secret = "sk_live_0123456789";
    let keys = vec![record(1, ORG, secret, secret, Some(999))];
    assert!(matches!(find_and_validate_key(secret, ORG, keys, 1_000), Err(MiddlewareError::ExpiredToken)));
}

#[test]
fn key_expiring_now_is_still_valid() {
    let secret = "sk_live_0123456789";
    let keys = vec![record(1, ORG, secret, secret, Some(1_000))];
    assert!(find_and_validate_key(secret, ORG, keys, 1_000).is_ok());
}

#[test]
fn hash_match_without_prefix_match_is_refused() {
    // The stored hash accepts the secret, but the stored prefix belongs to another key.
    let secret = "sk_live_0123456789";
    let keys = vec![record(1, ORG, secret, "pk_test_0000", None)];
    assert!(matches!(find_and_validate_key(secret, ORG, keys, 0), Err(MiddlewareError::InvalidToken(_))));
}

#[test]
fn missing_header_is_reported() {
    assert!(matches!(extract_api_key(None), Err(MiddlewareError::MissingToken)));
    assert_eq!(extract_api_key(Some("abc")).unwrap(), "abc");
    assert!(matches!(authenticate(None, ORG, Vec::new(), 0), Err(MiddlewareError::MissingToken)));
}

#[test]
fn authenticate_accepts_a_valid_header() {
    let secret = "sk_live_0123456789";
    let keys = vec![record(4, ORG, secret, secret, None)];
    assert_eq!(authenticate(Some(secret), ORG, keys, 0).unwrap().id, 4);
}

#[test]
fn malformed_hash_is_an_error() {
    assert!(verify_password("secret", "not-a-bcrypt-hash").is_err());
    let h = bcrypt::hash("secret", 4).unwrap();
    assert_eq!(verify_password("secret", &h).unwrap(), true);
    assert_eq!(verify_password("secreT", &h).unwrap(), false);
}

#[test]
fn key_types_grant_capabilities() {
    assert!(ApiKeyType::Admin.is_admin());
    assert!(ApiKeyType::ReadWrite.can_write());
    assert!(!ApiKeyType::ReadOnly.can_write());
    assert!(!ApiKeyType::ReadOnly.is_admin());
}
