//! Key authentication: a cheap lookup prefix narrows the stored keys to a few
//! candidates, and each candidate is then checked against its bcrypt hash.

use crate::error::MiddlewareError;
use sha2::Digest;
use vstd::prelude::*;

verus! {

/// What a key may be used for.
#[derive(Clone, Copy, Debug, PartialEq, Eq, Structural)]
pub enum ApiKeyType {
    Admin,
    ReadWrite,
    ReadOnly,
}

impl ApiKeyType {
    /// Whether the key may change data.
    pub fn can_write(&self) -> (r: bool)
        ensures
            r == !(*self is ReadOnly),
    {
        match self {
            ApiKeyType::ReadOnly => false,
            _ => true,
        }
    }

    /// Whether the key may manage the organization's keys.
    pub fn is_admin(&self) -> (r: bool)
        ensures
            r == (*self is Admin),
    {
        match self {
            ApiKeyType::Admin => true,
            _ => false,
        }
    }
}

/// A stored key: the secret itself is never kept, only its bcrypt hash and
/// its lookup prefix. Times are seconds since the Unix epoch.
#[derive(Debug)]
pub struct ApiKeyRecord {
    pub id: u128,
    pub organization_id: u128,
    pub key_prefix: String,
    pub key_hash: String,
    pub key_type: ApiKeyType,
    pub created_by: u128,
    pub last_used_at: Option<i64>,
    pub expires_at: Option<i64>,
}

/// bcrypt's error type, carried through opaquely.
#[verifier::external_type_specification]
#[verifier::external_body]
pub struct ExBcryptError(bcrypt::BcryptError);

/// The SHA-256 digest of `data`.
pub uninterp spec fn sha256_of(data: Seq<u8>) -> Seq<u8>;

/// What bcrypt's verification says of `secret` against the stored hash string:
/// `None` where the hash string is malformed.
pub uninterp spec fn bcrypt_verdict(secret: Seq<char>, hash: Seq<char>) -> Option<bool>;

pub open spec fn hex_digit(n: int) -> char {
    seq!['0', '1', '2', '3', '4', '5', '6', '7', '8', '9', 'a', 'b', 'c', 'd', 'e', 'f'][n]
}

/// Lowercase hexadecimal text of `b`, two digits per byte.
pub open spec fn hex_text(b: Seq<u8>) -> Seq<char>
    decreases b.len(),
{
    if b.len() == 0 {
        Seq::empty()
    } else {
        hex_text(b.drop_last()) + seq![hex_digit(b.last() as int / 16), hex_digit(b.last() as int % 16)]
    }
}

proof fn lemma_hex_text_len(b: Seq<u8>)
    ensures
        hex_text(b).len() == 2 * b.len(),
    decreases b.len(),
{
    if b.len() > 0 {
        lemma_hex_text_len(b.drop_last());
    }
}

/// The bytes of a key that its lookup prefix is derived from: the first eight.
pub open spec fn lookup_bytes(key: Seq<u8>) -> Seq<u8> {
    if key.len() >= 8 {
        key.take(8)
    } else {
        key
    }
}

/// The lookup prefix stored beside a key: the hex SHA-256 of its first eight bytes.
pub open spec fn api_key_prefix(key: Seq<char>) -> Seq<char> {
    hex_text(sha256_of(lookup_bytes(vstd::utf8::encode_utf8(key))))
}

/// Relies on sha2::Sha256::digest: the 32-byte SHA-256 digest of `data`.
#[verifier::external_body]
fn sha256_digest(data: &[u8]) -> (r: Vec<u8>)
    ensures
        r@ == sha256_of(data@),
        r@.len() == 32,
{
    sha2::Sha256::digest(data).to_vec()
}

/// Relies on hex::encode: lowercase hex, two digits per byte, in order.
#[verifier::external_body]
fn hex_encode(data: &[u8]) -> (r: String)
    ensures
        r@ == hex_text(data@),
{
    hex::encode(data)
}

/// Relies on bcrypt::verify: checks `password` against a bcrypt hash string,
/// and fails only where that string is not a well-formed bcrypt hash.
#[verifier::external_body]
pub fn verify_password(password: &str, hashed_password: &str) -> (r: Result<bool, bcrypt::BcryptError>)
    ensures
        r is Ok <==> bcrypt_verdict(password@, hashed_password@) is Some,
        r matches Ok(b) ==> bcrypt_verdict(password@, hashed_password@) == Some(b),
{
    bcrypt::verify(password, hashed_password)
}

/// The lookup prefix of `api_key`.
pub fn generate_api_key_prefix(api_key: &str) -> (r: String)
    ensures
        r@ == api_key_prefix(api_key@),
        r@.len() == 64,
{
    let bytes = api_key.as_bytes();
    let n: usize = if bytes.len() >= 8 {
        8
    } else {
        bytes.len()
    };
    let mut head: Vec<u8> = Vec::new();
    let mut i: usize = 0;
    while i < n
        invariant
            n <= bytes@.len(),
            n == (if bytes@.len() >= 8 { 8 } else { bytes@.len() }),
            i <= n,
            head@ == bytes@.take(i as int),
        decreases n - i,
    {
        head.push(bytes[i]);
        i = i + 1;
        assert(head@ =~= bytes@.take(i as int));
    }
    assert(head@ =~= lookup_bytes(bytes@));
    let digest = sha256_digest(head.as_slice());
    proof {
        lemma_hex_text_len(digest@);
    }
    hex_encode(digest.as_slice())
}

/// Whether `k` is a key of organization `org` that `secret` opens: the lookup
/// prefix must agree and the bcrypt check must pass.
pub open spec fn key_matches(secret: Seq<char>, org: u128, k: ApiKeyRecord) -> bool {
    &&& k.organization_id == org
    &&& k.key_prefix@ == api_key_prefix(secret)
    &&& bcrypt_verdict(secret, k.key_hash@) == Some(true)
}

/// The position of the first key from `i` on that `secret` opens for `org`.
pub open spec fn first_match_from(secret: Seq<char>, org: u128, keys: Seq<ApiKeyRecord>, i: int) -> Option<int>
    decreases keys.len() - i,
{
    if i < 0 || i >= keys.len() {
        None
    } else if key_matches(secret, org, keys[i]) {
        Some(i)
    } else {
        first_match_from(secret, org, keys, i + 1)
    }
}

pub open spec fn first_match(secret: Seq<char>, org: u128, keys: Seq<ApiKeyRecord>) -> Option<int> {
    first_match_from(secret, org, keys, 0)
}

pub open spec fn is_expired(k: ApiKeyRecord, now: i64) -> bool {
    k.expires_at matches Some(t) && t < now
}

/// The outcome of authenticating `secret` for `org` against the stored `keys` at `now`.
pub open spec fn authentication_outcome(
    secret: Seq<char>,
    org: u128,
    keys: Seq<ApiKeyRecord>,
    now: i64,
    r: Result<ApiKeyRecord, MiddlewareError>,
) -> bool {
    match first_match(secret, org, keys) {
        None => r matches Err(MiddlewareError::InvalidToken(_)),
        Some(i) => if is_expired(keys[i], now) {
            r matches Err(MiddlewareError::ExpiredToken)
        } else {
            r == Ok::<ApiKeyRecord, MiddlewareError>(keys[i])
        },
    }
}

/// Finds the key among `candidates` that `api_key` opens for `organization_id`,
/// and refuses it if it expired before `now`. `candidates` are the stored keys
/// that the store returned for the key's lookup prefix; the prefix and the
/// organization are checked again here, so a wider candidate list is harmless.
pub fn find_and_validate_key(api_key: &str, organization_id: u128, candidates: Vec<ApiKeyRecord>, now: i64) -> (r: Result<ApiKeyRecord, MiddlewareError>)
    ensures
        authentication_outcome(api_key@, organization_id, candidates@, now, r),
{
    let prefix = generate_api_key_prefix(api_key);
    let mut keys = candidates;
    let mut i: usize = 0;
    while i < keys.len()
        invariant
            keys@ == candidates@,
            i <= keys@.len(),
            prefix@ == api_key_prefix(api_key@),
            first_match_from(api_key@, organization_id, keys@, 0) == first_match_from(
                api_key@,
                organization_id,
                keys@,
                i as int,
            ),
        decreases keys@.len() - i,
    {
        let k = &keys[i];
        let opens = if k.organization_id == organization_id && k.key_prefix == prefix {
            match verify_password(api_key, k.key_hash.as_str()) {
                Ok(b) => b,
                Err(_) => false,
            }
        } else {
            false
        };
        if opens {
            let expired = match k.expires_at {
                Some(t) => t < now,
                None => false,
            };
            if expired {
                return Err(MiddlewareError::ExpiredToken);
            }
            let key = keys.remove(i);
            return Ok(key);
        }
        i = i + 1;
    }
    Err(MiddlewareError::InvalidToken("Invalid API key".to_owned()))
}

/// The presented key, or `MissingToken` where the request carries none.
pub fn extract_api_key(header: Option<&str>) -> (r: Result<String, MiddlewareError>)
    ensures
        header is None ==> r matches Err(MiddlewareError::MissingToken),
        header matches Some(h) ==> r matches Ok(s) && s@ == h@,
{
    match header {
        Some(h) => Ok(h.to_owned()),
        None => Err(MiddlewareError::MissingToken),
    }
}

/// Authenticates a request: the key it presents (if any) must open one of the
/// stored `candidates` of `organization_id` and must not have expired by `now`.
pub fn authenticate(header: Option<&str>, organization_id: u128, candidates: Vec<ApiKeyRecord>, now: i64) -> (r: Result<ApiKeyRecord, MiddlewareError>)
    ensures
        header is None ==> r matches Err(MiddlewareError::MissingToken),
        header matches Some(h) ==> authentication_outcome(h@, organization_id, candidates@, now, r),
{
    let api_key = extract_api_key(header)?;
    find_and_validate_key(api_key.as_str(), organization_id, candidates, now)
}

/// A key is never accepted for a secret whose lookup prefix matches no stored
/// key's prefix, whatever the stored hashes are: the prefix filters, and the
/// bcrypt check still decides among the keys it lets through.
pub proof fn lemma_prefix_required(secret: Seq<char>, org: u128, keys: Seq<ApiKeyRecord>, now: i64, r: Result<ApiKeyRecord, MiddlewareError>)
    requires
        forall|j: int| 0 <= j < keys.len() ==> #[trigger] keys[j].key_prefix@ != api_key_prefix(secret),
        authentication_outcome(secret, org, keys, now, r),
    ensures
        r is Err,
{
    lemma_no_match_from(secret, org, keys, 0);
}

proof fn lemma_no_match_from(secret: Seq<char>, org: u128, keys: Seq<ApiKeyRecord>, i: int)
    requires
        0 <= i,
        forall|j: int| 0 <= j < keys.len() ==> #[trigger] keys[j].key_prefix@ != api_key_prefix(secret),
    ensures
        first_match_from(secret, org, keys, i) is None,
    decreases keys.len() - i,
{
    if i < keys.len() {
        lemma_no_match_from(secret, org, keys, i + 1);
    }
}

/// An accepted key belongs to the organization, carries the secret's prefix,
/// passed the bcrypt check and has not expired.
pub proof fn lemma_accepted_key_checked(secret: Seq<char>, org: u128, keys: Seq<ApiKeyRecord>, now: i64, r: Result<ApiKeyRecord, MiddlewareError>)
    requires
        authentication_outcome(secret, org, keys, now, r),
        r is Ok,
    ensures
        key_matches(secret, org, r->Ok_0),
        !is_expired(r->Ok_0, now),
        keys.contains(r->Ok_0),
{
    lemma_first_match_is_match(secret, org, keys, 0);
    let i = first_match(secret, org, keys)->Some_0;
    assert(keys[i] == r->Ok_0);
}

proof fn lemma_first_match_is_match(secret: Seq<char>, org: u128, keys: Seq<ApiKeyRecord>, i: int)
    ensures
        first_match_from(secret, org, keys, i) matches Some(j) ==> 0 <= j < keys.len() && key_matches(secret, org, keys[j]),
    decreases keys.len() - i,
{
    if 0 <= i < keys.len() && !key_matches(secret, org, keys[i]) {
        lemma_first_match_is_match(secret, org, keys, i + 1);
    }
}

} // verus!
