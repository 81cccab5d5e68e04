//! Dynamic-DNS reconciliation library.
//!
//! The crate holds the decision logic of a dynamic-DNS agent: building
//! fully-qualified record names, selecting the matching A-record from a
//! provider response, deciding whether a stored record needs an update for
//! the currently resolved public IP, and driving the repeating check cycle
//! as an explicit state machine. All network traffic, JSON encoding and
//! process plumbing live outside the library and hand it plain values.

pub mod config;
pub mod provider;
pub mod reconcile;
pub mod scheduler;
pub mod text;
pub mod types;
