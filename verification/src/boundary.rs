//! Handles for the process boundary's collaborators. Creating the real store
//! client and wiring the HTTP routes is boundary work outside this crate;
//! the handles themselves carry no verified state, and the boundary attaches
//! its own behaviour to them.

use vstd::prelude::*;

verus! {

/// Handle for the object-store client collaborator.
#[derive(Default)]
pub struct AwsSdkS3Client {}

/// Handle for the download endpoint's controller.
pub struct DownloadController {}

} // verus!
