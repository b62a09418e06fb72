//! The host side of a save-and-search service for browsing history: framing,
//! the request and response protocol, the schema and content store and its
//! search, and the manifests that register the host with the browsers.
use vstd::prelude::*;

pub mod context;
pub mod frame;
pub mod manifest;
pub mod markdown;
pub mod message;
pub mod sanitize;
pub mod schema;
pub mod sqlite;
pub mod store;
pub mod web;

pub use context::{handle_request, ConnectionMode, Context};

verus! {

/// Why the host could not open its store or serve a request.
#[derive(Debug)]
pub enum HostError {
    /// The storage engine failed.
    Storage(rusqlite::Error),
    /// The query pattern did not compile.
    Pattern(regex::Error),
    /// The database records a schema version newer than this library knows,
    /// or one that cannot be read as a version.
    InvalidSchemaVersion,
    /// A failed step of a transaction could not be undone; the store may
    /// hold part of what the transaction did.
    RollbackFailed(rusqlite::Error),
    /// The requested page lies beyond what the storage engine can address.
    PageOutOfRange,
}

} // verus!
