//! Verified core of a bounded object-store download pipeline: a user-supplied
//! path is normalized, the keys listed under it are filtered against a size
//! and quantity policy, fetch results are folded into retrieved objects, and
//! the objects are serialized into a single in-memory zip archive.
//!
//! All network and process plumbing (the store client, the HTTP boundary,
//! configuration from the environment) lives outside this crate; the functions
//! here take and return plain values and carry full contracts.

pub mod archive;
pub mod boundary;
pub mod common_error;
pub mod download;
pub mod listing;
pub mod model;
pub mod paths;
pub mod retrieval;
pub mod strutil;
