//! Adapter core for a brokerage trading terminal whose native client library
//! is driven over an HTTP API.
//!
//! The crate holds the decisions of the adapter: how a raw response buffer is
//! framed and decoded, how request categories map to native codes, how the
//! arguments of a native call are marshalled, how a reply is interpreted, and
//! how a session is established with bounded retries. Performing the native
//! calls, sleeping and serving HTTP are left to the embedding program.

pub mod buffer;
pub mod category;
pub mod config;
pub mod login;
pub mod service;
pub mod session;
