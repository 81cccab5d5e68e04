//! Plain data carried through the reconciliation logic.

use vstd::prelude::*;

verus! {

/// The provider's API key pair, embedded in every request body and
/// immutable for the life of the process.
#[derive(Debug)]
pub struct Credentials {
    pub api_key: String,
    pub secret_api_key: String,
}

/// A DNS record as the provider reports it. The provider returns `ttl`
/// textually on reads even though updates write it as a number.
#[derive(Debug)]
pub struct DnsRecord {
    pub record_type: String,
    pub name: String,
    pub content: String,
    pub ttl: String,
    pub id: String,
}

/// A failed remote operation: either the transport broke down, or the
/// provider answered with a non-success status and a message.
#[derive(Debug)]
pub enum ApiError {
    Network { message: String },
    Provider { message: String },
}

/// Immutable configuration shared by every check cycle: credentials, the
/// domain, the ordered subdomains (an empty string means the bare domain),
/// and the fixed sleep interval between cycles.
#[derive(Debug)]
pub struct CycleConfig {
    pub credentials: Credentials,
    pub domain: String,
    pub subdomains: Vec<String>,
    pub check_interval_seconds: u64,
}

} // verus!
