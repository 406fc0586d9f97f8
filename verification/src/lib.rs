//! Write path of a content-addressable cache.
//!
//! Payload bytes are published under a logical key in two steps: the bytes go
//! into a content-addressed blob store, which names them by a cryptographic
//! digest, and an append-only index then maps the key to that digest together
//! with size, timestamp, metadata and ownership. The [`Writer`] builder
//! accumulates one write's parameters, validates the caller's expectations
//! about the payload, and performs the commit; [`data`] is the one-shot entry
//! point for the common case.

pub mod cache;
pub mod digest;
pub mod errors;
pub mod laws;
pub mod put;

pub use cache::Cache;
pub use cache::Entry;
pub use digest::Digest;
pub use errors::Error;
pub use put::Writer;
pub use put::data;

