//! Verified core of an OpenAI-compatible proxy gateway.
//!
//! The library holds the per-request decision logic: resolving the caller's
//! credential, choosing streaming versus buffered dispatch, translating a
//! backend chunk stream into outbound wire events, and normalizing every
//! failure into one wire error document with its HTTP status. The
//! surrounding HTTP server, the secure-channel bootstrap and all network
//! I/O live outside the library and drive these functions.

pub mod config;
pub mod errors;
pub mod proxy;
pub mod stream;

pub use config::{Config, OpenAIError, OpenAIErrorDetails};
