//! Startup-credential resolution, base-URL validation, secret redaction and
//! the request/response rules of a CPA management client.

pub mod text;
pub mod messages;
pub mod redact;
pub mod base_url;
pub mod startup;
pub mod connection;
pub mod request;
pub mod bootstrap;
