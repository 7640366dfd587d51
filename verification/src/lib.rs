//! Session handling, request rewriting and routing for an authenticating
//! reverse proxy.
//!
//! The crate decides; the caller performs. Every function here maps plain
//! values to plain values, so that the listener and the upstream client can
//! stay outside.

pub mod clock;
pub mod cookies;
pub mod query;
pub mod rewrite;
pub mod router;
pub mod text;
pub mod token;
