//! Resolution of a local account to the SSH public keys that its remote
//! identities publish, with a per-identity cache that bounds latency and
//! keeps logins working while the remote service is unreachable.
//!
//! The library performs no input or output itself. A resolver names the
//! next action: look up a cache entry, fetch the keys of an identity, write
//! a cache entry, or finish with a result. The program around it carries
//! the action out and hands back the event that answers it. Every decision
//! lies here, where it is proved: when a cached entry is served, when the
//! remote service is asked, what a failed fetch falls back on, and how the
//! keys of several identities become one text.

pub mod cache;
pub mod config;
pub mod join;
pub mod laws;
pub mod protocol;
pub mod remote;
pub mod resolver;
pub mod single;
pub mod world;
