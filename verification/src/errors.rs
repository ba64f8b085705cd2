//! The failure conditions a pool construction or flush can surface.

use vstd::prelude::*;

verus! {

/// Every way a `create`, `open`, `determine` or `flush` can fail. None of
/// these leaves a half-initialized pool reachable.
#[derive(Clone, Copy, Debug, PartialEq, Eq, Structural)]
pub enum PoolError {
    /// `create` was asked to make a backing that already exists.
    AlreadyExists,
    /// The existing backing's total size does not match the size computed
    /// from the requested data size.
    SizeMismatch,
    /// The stored magic signature is not this format's signature.
    FormatMismatch,
    /// The stored format version differs from the compiled format version.
    VersionMismatch,
    /// The stored user version differs from the value the caller expects.
    UserVersionMismatch,
    /// The recomputed digest differs from the stored checksum: the backing
    /// is corrupt or truncated.
    ChecksumMismatch,
    /// The storage layer reported a hard failure.
    Io,
}

impl PoolError {
    /// A short description of the failure, for callers that report it.
    pub fn message(&self) -> &'static str {
        match self {
            PoolError::AlreadyExists => "backing already exists",
            PoolError::SizeMismatch => "backing size does not match requested data size",
            PoolError::FormatMismatch => "unrecognized header format",
            PoolError::VersionMismatch => "incompatible format version",
            PoolError::UserVersionMismatch => "user version does not match expected value",
            PoolError::ChecksumMismatch => "checksum mismatch",
            PoolError::Io => "storage failure",
        }
    }
}

} // verus!
