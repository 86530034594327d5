//! The error taxonomy of the download subsystem.

use vstd::prelude::*;

verus! {

/// Why a fetch attempt, or a whole download, failed.
#[derive(Debug, Clone, PartialEq)]
pub enum DownloadError {
    /// The request could not be sent, or came back with a non-success
    /// status. Retryable.
    NetworkFailure { status: Option<u16> },
    /// A local read, write, delete or rename failed. Retryable.
    IoFailure,
    /// The fetched content did not match the declared digest. Retryable,
    /// and counts against the attempt budget.
    ChecksumMismatch { expected: Vec<u8>, actual: Vec<u8> },
    /// The verified bytes are not well-formed structured data. Not
    /// retryable: refetching the same bytes cannot mend their shape.
    ParseFailure,
    /// A required manifest field (such as the index reference) is absent.
    /// Not retryable; fatal immediately.
    MissingPrerequisite,
}

impl DownloadError {
    /// Whether a fresh attempt may succeed where this failure occurred.
    pub open spec fn spec_is_retryable(&self) -> bool {
        match self {
            DownloadError::NetworkFailure { .. } => true,
            DownloadError::IoFailure => true,
            DownloadError::ChecksumMismatch { .. } => true,
            DownloadError::ParseFailure => false,
            DownloadError::MissingPrerequisite => false,
        }
    }

    pub fn is_retryable(&self) -> (r: bool)
        ensures
            r == self.spec_is_retryable(),
    {
        match self {
            DownloadError::NetworkFailure { .. } => true,
            DownloadError::IoFailure => true,
            DownloadError::ChecksumMismatch { .. } => true,
            DownloadError::ParseFailure => false,
            DownloadError::MissingPrerequisite => false,
        }
    }
}

/// A terminal per-artifact failure, with enough context to say which
/// resource failed, why, and after how many attempts.
#[derive(Debug, Clone)]
pub struct ArtifactFailure {
    pub local_path: String,
    pub cause: DownloadError,
    pub attempts: usize,
}

} // verus!
