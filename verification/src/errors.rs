//! Error taxonomy of the provisioning engine.
//!
//! Fetch errors are retryable at the caller's choice and never retried
//! internally; provisioning and sync errors abort their stage; a launch error
//! is terminal. Best-effort steps (progress emission, legacy cleanup) have no
//! error type at all: their failures are swallowed by design.

use vstd::prelude::*;

verus! {

/// A single-file download failed its status or integrity checks.
#[derive(Clone, Copy, Debug, PartialEq, Eq, Structural)]
pub enum FetchError {
    /// The server answered with a non-success HTTP status.
    BadStatus(u16),
    /// The downloaded file was empty; it has been deleted.
    EmptyFile,
    /// The destination is an archive but the magic bytes did not match;
    /// the file has been deleted.
    BadFormat,
}

/// Provisioning the managed runtime failed; fatal for the whole run.
#[derive(Clone, Copy, Debug, PartialEq, Eq, Structural)]
pub enum ProvisionError {
    /// Unpacking the downloaded runtime archive failed.
    ExtractionFailed,
    /// After a supposedly successful install no executable was found.
    RuntimeMissingAfterInstall,
}

/// Synchronizing the main artifact failed; fatal for the artifact stage.
#[derive(Clone, Copy, Debug, PartialEq, Eq, Structural)]
pub enum SyncError {
    /// The download reported success but the file is not where expected.
    PostDownloadMissing,
}

/// Starting the built command failed.
#[derive(Clone, Copy, Debug, PartialEq, Eq, Structural)]
pub enum LaunchError {
    /// The process could not be spawned.
    SpawnFailed,
}

} // verus!
