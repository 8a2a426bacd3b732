//! Decision logic of a remote-host bootstrap helper: resolving how to reach
//! and authenticate against a host, interpreting the outcome of remote
//! commands, and summarising per-step results.
pub mod connect;
pub mod remote;
pub mod status;
pub mod text;
