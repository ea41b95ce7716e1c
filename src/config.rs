//! Settings of the service and of its cache, and the cache's client handle.

use vstd::prelude::*;
use vstd::string::StringExecFns;

verus! {

/// The redis client, carried through opaquely.
#[verifier::external_type_specification]
#[verifier::external_body]
pub struct ExRedisClient(redis::Client);

/// The redis error type, carried through opaquely.
#[verifier::external_type_specification]
#[verifier::external_body]
pub struct ExRedisError(redis::RedisError);

pub open spec fn or_default(v: Option<String>, default: Seq<char>) -> Seq<char> {
    match v {
        Some(s) => s@,
        None => default,
    }
}

/// Where the service listens.
#[derive(Debug)]
pub struct AppConfig {
    pub host: String,
    pub port: String,
}

impl AppConfig {
    /// The configuration from the configured host and port, each defaulting
    /// (to `127.0.0.1` and `3000`) where it is not set.
    pub fn from_values(host: Option<String>, port: Option<String>) -> (r: AppConfig)
        ensures
            r.host@ == or_default(host, "127.0.0.1"@),
            r.port@ == or_default(port, "3000"@),
    {
        let host = match host {
            Some(h) => h,
            None => "127.0.0.1".to_owned(),
        };
        let port = match port {
            Some(p) => p,
            None => "3000".to_owned(),
        };
        AppConfig { host, port }
    }

    /// The socket address, `host:port`.
    pub fn addr(&self) -> (r: String)
        ensures
            r@ == self.host@ + ":"@ + self.port@,
    {
        let mut a = self.host.clone();
        a.append(":");
        a.append(self.port.as_str());
        a
    }
}

/// Where the usage cache lives.
#[derive(Debug)]
pub struct RedisConfig {
    pub url: String,
}

impl RedisConfig {
    /// The configuration from the configured URL, defaulting to a local server.
    pub fn from_value(url: Option<String>) -> (r: RedisConfig)
        ensures
            r.url@ == or_default(url, "redis://127.0.0.1:6379"@),
    {
        let url = match url {
            Some(u) => u,
            None => "redis://127.0.0.1:6379".to_owned(),
        };
        RedisConfig { url }
    }

    /// Relies on redis::Client::open: parses the URL into a client handle; no
    /// connection is made.
    #[verifier::external_body]
    pub fn create_client(&self) -> (r: Result<redis::Client, redis::RedisError>) {
        redis::Client::open(self.url.as_str())
    }
}

/// The handle through which the usage cache is reached.
pub struct RedisStore {
    pub client: redis::Client,
}

impl RedisStore {
    /// A store for the configured cache; fails where the URL is not one.
    pub fn new(config: RedisConfig) -> (r: Result<RedisStore, redis::RedisError>) {
        let client = config.create_client()?;
        Ok(RedisStore { client })
    }
}

} // verus!
