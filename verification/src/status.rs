//! The outcomes of a transfer that did not fail.

use std::path::PathBuf;
use vstd::prelude::*;

verus! {

/// `std::path::PathBuf`, a destination in the file system. Trusted as an
/// opaque value that is carried from the caller to the outcome unchanged.
#[verifier::external_type_specification]
#[verifier::external_body]
pub struct ExPathBuf(PathBuf);

/// How a transfer ended when it did not fail. Exactly one variant holds.
#[derive(Debug, PartialEq, Eq)]
pub enum DlStatus {
    /// The destination did not exist; `num_bytes` bytes were written to it.
    Downloaded { location: PathBuf, num_bytes: usize },
    /// The destination existed and was left as it was.
    FileExists(PathBuf),
    /// The destination existed; it now holds the `num_bytes` bytes written.
    Replaced { location: PathBuf, num_bytes: usize },
}

impl DlStatus {
    /// The destination that the outcome speaks of.
    pub open spec fn destination(self) -> PathBuf {
        match self {
            DlStatus::Downloaded { location, .. } => location,
            DlStatus::FileExists(location) => location,
            DlStatus::Replaced { location, .. } => location,
        }
    }

    /// The number of bytes written to the destination.
    pub open spec fn written(self) -> nat {
        match self {
            DlStatus::Downloaded { num_bytes, .. } => num_bytes as nat,
            DlStatus::FileExists(_) => 0,
            DlStatus::Replaced { num_bytes, .. } => num_bytes as nat,
        }
    }
}

} // verus!
