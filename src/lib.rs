//! Quota enforcement and usage metering for a multi-tenant API: credential
//! checks, a calendar-aligned usage counter, the limiter's decision procedure
//! and the planning of the usage reports that follow an admitted request.

pub mod period;
pub mod error;
pub mod text;
pub mod credentials;
pub mod cache;
pub mod limiter;
pub mod quota;
pub mod reporter;
pub mod config;
pub mod billing;
pub mod roles;
