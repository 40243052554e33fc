//! Error taxonomy of the storage layer.
//!
//! The layer is a fail-fast adapter: every propagated error carries the
//! operation name and the logical path it concerns, and nothing is retried.

use vstd::prelude::*;

verus! {

/// An error propagated by a storage operation.
///
/// Every variant carries the operation name and the logical remote path for
/// upstream diagnosis.
#[derive(Debug)]
pub enum RemoteFsError {
    /// A remote call failed; the operation aborts with no local change.
    Transport { operation: String, remote_path: String, message: String },
    /// The byte length reported after an upload differs from the local file's
    /// byte length.
    Integrity { operation: String, remote_path: String, expected: u64, actual: u64 },
    /// A local directory, rename or metadata call failed.
    Filesystem { operation: String, remote_path: String, message: String },
}

impl RemoteFsError {
    /// The operation name the error carries.
    pub fn operation(&self) -> (r: &String)
        ensures
            r == match self {
                RemoteFsError::Transport { operation, .. } => operation,
                RemoteFsError::Integrity { operation, .. } => operation,
                RemoteFsError::Filesystem { operation, .. } => operation,
            },
    {
        match self {
            RemoteFsError::Transport { operation, .. } => operation,
            RemoteFsError::Integrity { operation, .. } => operation,
            RemoteFsError::Filesystem { operation, .. } => operation,
        }
    }

    /// The logical remote path the error carries.
    pub fn remote_path(&self) -> (r: &String)
        ensures
            r == match self {
                RemoteFsError::Transport { remote_path, .. } => remote_path,
                RemoteFsError::Integrity { remote_path, .. } => remote_path,
                RemoteFsError::Filesystem { remote_path, .. } => remote_path,
            },
    {
        match self {
            RemoteFsError::Transport { remote_path, .. } => remote_path,
            RemoteFsError::Integrity { remote_path, .. } => remote_path,
            RemoteFsError::Filesystem { remote_path, .. } => remote_path,
        }
    }
}

} // verus!
