//! Marshalling and workflow rules of a binding layer between a host runtime
//! and a platform client session: wide account identities, friend filter
//! masks, friend records, and the screenshot capture workflow.
//!
//! The platform client itself is never reached from here. An operation that
//! needs its answer takes the query as a function value, so the contract
//! says what the client is asked and how its answer is handed on.

pub mod client;
pub mod friends;
pub mod identity;
pub mod screenshots;
