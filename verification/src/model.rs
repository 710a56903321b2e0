//! The data the pipeline moves: listing entries, the retrieval policy, fetch
//! reports and retrieved objects, and the final archive payload.

use vstd::prelude::*;

verus! {

/// The key count the listing quota falls back to when the boundary supplies
/// no configuration.
pub const DEFAULT_MAX_KEY_COUNT: usize = 100;

/// The object size bound, in bytes, used when the boundary supplies no
/// configuration.
pub const DEFAULT_MAX_OBJECT_SIZE_BYTES: i64 = 2097152;

/// One entry of a store listing: a full object key and its size in bytes,
/// exactly as the store reported them.
pub struct ListedKey {
    /// The object key, including the listing prefix.
    pub key: String,
    /// The object's size in bytes.
    pub size_bytes: i64,
}

/// The process-wide retrieval limits, fixed at startup.
#[derive(Clone, Copy, Debug, PartialEq, Eq, Structural)]
pub struct RetrievalPolicy {
    /// A listing that yields more qualifying keys than this fails outright.
    pub max_key_count: usize,
    /// A listed object of this size or larger is excluded from the listing.
    pub max_object_size_bytes: i64,
}

impl Default for RetrievalPolicy {
    /// The fixed fallback limits.
    fn default() -> (r: Self)
        ensures
            r.max_key_count == DEFAULT_MAX_KEY_COUNT,
            r.max_object_size_bytes == DEFAULT_MAX_OBJECT_SIZE_BYTES,
    {
        RetrievalPolicy {
            max_key_count: DEFAULT_MAX_KEY_COUNT,
            max_object_size_bytes: DEFAULT_MAX_OBJECT_SIZE_BYTES,
        }
    }
}

/// A download request as the HTTP boundary hands it over: a bucket and the
/// folder path to export.
pub struct DownloadRequest {
    /// The store bucket to read from.
    pub bucket_name: String,
    /// The folder path whose direct children are wanted.
    pub full_path: String,
}

/// What one fan-out fetch came back with: the key it was issued for, and the
/// body when the store produced one. `None` records a store-level failure.
pub struct FetchReport {
    /// The key the fetch was issued for.
    pub key: String,
    /// The fetched body, or `None` when the store failed for this key.
    pub content: Option<Vec<u8>>,
}

/// One object as the retrieval layer delivers it.
pub struct RetrievedObject {
    /// The object's key under the listing prefix.
    pub key: String,
    /// The object's bytes; empty when its fetch was absorbed as failed.
    pub content: Vec<u8>,
}

/// The result of retrieving an explicit subset of keys: what was fetched,
/// and which requested keys do not exist under the prefix.
pub struct RetrievalOutcome {
    /// The retrieved objects, one per requested key found under the prefix.
    pub found: Vec<RetrievedObject>,
    /// The requested keys that the listing does not hold.
    pub not_found: Vec<String>,
}

/// The finished export: a download filename and the archive bytes.
pub struct ArchivePayload {
    /// The filename the boundary serves the archive under.
    pub filename: String,
    /// The complete archive bytes.
    pub content: Vec<u8>,
}

/// The bytes a fetch report contributes to the archive: the body when the
/// fetch succeeded, and nothing when it was absorbed as failed.
pub open spec fn absorbed_content(c: Option<Vec<u8>>) -> Seq<u8> {
    match c {
        Some(v) => v@,
        None => Seq::<u8>::empty(),
    }
}

} // verus!
