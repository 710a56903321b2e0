//! The error taxonomy of the pipeline. Listing and archiving failures are
//! fatal to an operation; an individual fetch failure inside a fan-out is
//! absorbed by the retrieval layer and never surfaces as one of these.

use vstd::prelude::*;
use vstd::string::StringExecFns;

verus! {

/// Why a pipeline operation failed.
#[derive(Clone, Copy, Debug, PartialEq, Eq, Structural)]
pub enum CommonError {
    /// A write-side operation was handed an empty bucket, path, key or body.
    InvalidInput,
    /// The listing held more qualifying keys than the policy allows; the
    /// operation stops rather than silently truncating the listing.
    QuotaExceeded,
    /// The object store reported a failure while listing or fetching.
    StoreAccessError,
    /// The archive writer refused an entry or failed to finalize.
    ArchiveWriteError,
}

impl CommonError {
    /// A short, fixed description of the error.
    pub fn message(&self) -> (r: String)
        ensures
            *self == CommonError::InvalidInput ==> r@ == "no valid input or parameter"@,
            *self == CommonError::QuotaExceeded ==> r@ == "listing quota exceeded"@,
            *self == CommonError::StoreAccessError ==> r@ == "store access error"@,
            *self == CommonError::ArchiveWriteError ==> r@ == "archive write error"@,
    {
        match self {
            CommonError::InvalidInput => String::from_str("no valid input or parameter"),
            CommonError::QuotaExceeded => String::from_str("listing quota exceeded"),
            CommonError::StoreAccessError => String::from_str("store access error"),
            CommonError::ArchiveWriteError => String::from_str("archive write error"),
        }
    }
}

} // verus!
