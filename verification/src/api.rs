//! Typed errors surfaced by the registry-communication collaborator, as the
//! engine sees them at its boundary.

use vstd::prelude::*;
use crate::registry::LogId;

verus! {

/// An error returned while fetching logs from the registry.
#[derive(Debug)]
pub enum FetchError {
    /// The registry does not know the named log.
    LogNotFound {
        /// The identity of the unknown log.
        log_id: LogId,
    },
    /// Any other fetch failure, with the registry's message.
    Message {
        /// The registry's message.
        message: String,
    },
}

/// An error returned by the registry's package endpoints.
#[derive(Debug)]
pub enum PackageError {
    /// The registry does not know the named log.
    LogNotFound {
        /// The identity of the unknown log.
        log_id: LogId,
    },
    /// Any other package-endpoint failure, with the registry's message.
    Message {
        /// The registry's message.
        message: String,
    },
}

/// An error surfaced by an API operation against the registry.
#[derive(Debug)]
pub enum ClientError {
    /// A fetch operation failed.
    Fetch(FetchError),
    /// A package operation failed.
    Package(PackageError),
    /// Any other API failure, with its message.
    Message {
        /// The failure's message.
        message: String,
    },
}

} // verus!
