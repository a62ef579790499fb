//! A verified client engine for a transparency-log-based package registry.
//!
//! The library validates registry-supplied Merkle inclusion and consistency
//! proofs against locally cached checkpoints, folds verified records into
//! per-package log state, and drives the multi-step publish workflow as an
//! explicit state machine. Network transport and persistence are left to the
//! caller; the engine works on plain values.

pub mod api;
pub mod checkpoint;
pub mod hash;
pub mod proofs;
pub mod publish;
pub mod registry;
pub mod state;

use vstd::prelude::*;
use crate::hash::Digest;
use crate::registry::{LogId, PackageId, RecordId, Version};
use crate::state::ValidationError;

verus! {

/// A result of an attempt to lock client storage.
pub enum StorageLockResult<T> {
    /// The storage lock was acquired.
    Acquired(T),
    /// The storage lock was not acquired for the specified directory.
    NotAcquired(String),
}

/// Represents information about a downloaded package.
#[derive(Debug)]
pub struct PackageDownload {
    /// The package version that was downloaded.
    pub version: Version,
    /// The digest of the package contents.
    pub digest: Digest,
    /// The path to the downloaded package contents.
    pub path: String,
}

/// Represents an error returned by registry clients.
#[derive(Debug)]
pub enum ClientError {
    /// No default registry server URL is configured.
    NoDefaultUrl,
    /// The operator failed validation.
    OperatorValidationFailed {
        /// The validation error.
        inner: ValidationError,
    },
    /// The package already exists and cannot be initialized.
    CannotInitializePackage {
        /// The identifier of the package that already exists.
        id: PackageId,
    },
    /// The package must be initialized before publishing.
    MustInitializePackage {
        /// The name of the package that must be initialized.
        id: PackageId,
    },
    /// There is no publish operation in progress.
    NotPublishing,
    /// A publish operation is already in progress for the package.
    PublishInProgress {
        /// The identifier of the package already being published.
        id: PackageId,
    },
    /// The package has no records to publish.
    NothingToPublish {
        /// The identifier of the package that has no publish operations.
        id: PackageId,
    },
    /// The package does not exist.
    PackageDoesNotExist {
        /// The identifier of the missing package.
        id: PackageId,
    },
    /// The package version does not exist.
    PackageVersionDoesNotExist {
        /// The missing version of the package.
        version: Version,
        /// The identifier of the package with the missing version.
        id: PackageId,
    },
    /// The package failed validation.
    PackageValidationFailed {
        /// The identifier of the package that failed validation.
        id: PackageId,
        /// The validation error.
        inner: ValidationError,
    },
    /// Content was not found during a publish operation.
    ContentNotFound {
        /// The digest of the missing content.
        digest: Digest,
    },
    /// The package log is empty and cannot be validated.
    PackageLogEmpty {
        /// The identifier of the package with an empty package log.
        id: PackageId,
    },
    /// A publish operation was rejected.
    PublishRejected {
        /// The identifier of the package that was rejected.
        id: PackageId,
        /// The record identifier for the record that was rejected.
        record_id: RecordId,
        /// The reason it was rejected.
        reason: String,
    },
    /// The package is still missing content after all content was uploaded.
    PackageMissingContent,
    /// An error occurred during an API operation.
    Api(api::ClientError),
    /// An error occurred while performing a client operation.
    Other(String),
}

/// Represents the result of a client operation.
pub type ClientResult<T> = Result<T, ClientError>;

/// The log identity a registry error names, when it is a "log not found".
pub open spec fn not_found_log(e: api::ClientError) -> Option<LogId> {
    match e {
        api::ClientError::Fetch(api::FetchError::LogNotFound { log_id }) => Some(log_id),
        api::ClientError::Package(api::PackageError::LogNotFound { log_id }) => Some(log_id),
        _ => None,
    }
}

impl ClientError {
    /// Translates a registry "log not found" error into
    /// `PackageDoesNotExist` naming the first tracked package whose log
    /// identity matches; any other error is passed through as `Api`.
    pub fn translate_log_not_found(e: api::ClientError, known: &Vec<(LogId, PackageId)>) -> (r:
        ClientError)
        ensures
            match not_found_log(e) {
                Some(log) => {
                    if exists|i: int|
                        0 <= i < known@.len() && (#[trigger] known@[i]).0.digest@ == log.digest@ {
                        exists|i: int|
                            {
                                &&& 0 <= i < known@.len()
                                &&& (#[trigger] known@[i]).0.digest@ == log.digest@
                                &&& forall|k: int|
                                    0 <= k < i ==> (#[trigger] known@[k]).0.digest@ != log.digest@
                                &&& r matches ClientError::PackageDoesNotExist { id } && id@
                                    == known@[i].1@
                            }
                    } else {
                        r matches ClientError::Api(ae) && ae == e
                    }
                },
                None => r matches ClientError::Api(ae) && ae == e,
            },
    {
        let log: Option<LogId> = match &e {
            api::ClientError::Fetch(api::FetchError::LogNotFound { log_id }) => Some(*log_id),
            api::ClientError::Package(api::PackageError::LogNotFound { log_id }) => Some(*log_id),
            _ => None,
        };
        match log {
            Some(log) => {
                let mut i: usize = 0;
                while i < known.len()
                    invariant
                        i <= known@.len(),
                        not_found_log(e) == Some(log),
                        forall|k: int|
                            0 <= k < i ==> (#[trigger] known@[k]).0.digest@ != log.digest@,
                    decreases known@.len() - i,
                {
                    if known[i].0.equals(&log) {
                        return ClientError::PackageDoesNotExist { id: known[i].1.clone() };
                    }
                    i = i + 1;
                }
                ClientError::Api(e)
            },
            None => ClientError::Api(e),
        }
    }
}

} // verus!
