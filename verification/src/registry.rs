//! Identifiers of the registry's data model: versions, log and record
//! identities, signing-key identities, and the leaves of the global
//! Merkle tree.

use vstd::prelude::*;
use crate::hash::{Digest, digest_eq, hash_leaf_content, append_digest, leaf_hash_of, sha256_of};

verus! {

/// A release version, compared field by field.
#[derive(Clone, Copy, Debug, PartialEq, Eq, Structural)]
pub struct Version {
    /// The major component.
    pub major: u64,
    /// The minor component.
    pub minor: u64,
    /// The patch component.
    pub patch: u64,
}

/// The human-readable identifier of a package, as callers name it.
pub type PackageId = String;

/// The identity of one append-only log: the digest of the package or
/// operator identifier it was derived from.
#[derive(Clone, Copy, Debug)]
pub struct LogId {
    /// The digest that identifies the log.
    pub digest: Digest,
}

/// The identity of one record within a log: the digest of the record's
/// canonical byte representation, as assigned on inclusion.
#[derive(Clone, Copy, Debug)]
pub struct RecordId {
    /// The digest that identifies the record.
    pub digest: Digest,
}

/// The identity (fingerprint digest) of a signing key.
#[derive(Clone, Copy, Debug)]
pub struct KeyId {
    /// The digest that identifies the key.
    pub digest: Digest,
}

/// The registry's commitment unit: a (log, record) pair positioned in the
/// global Merkle tree.
#[derive(Clone, Copy, Debug)]
pub struct LogLeaf {
    /// The log the record belongs to.
    pub log_id: LogId,
    /// The record committed at this leaf.
    pub record_id: RecordId,
}

/// The byte content a leaf commits to: the log identity followed by the
/// record identity.
pub open spec fn leaf_content_of(leaf: LogLeaf) -> Seq<u8> {
    leaf.log_id.digest@ + leaf.record_id.digest@
}

/// The Merkle leaf digest of a `LogLeaf`.
pub open spec fn leaf_digest_of(leaf: LogLeaf) -> Seq<u8> {
    leaf_hash_of(leaf_content_of(leaf))
}

impl LogId {
    /// Derives the log identity from the bytes of a package or operator
    /// identifier; stable for the lifetime of the package or operator.
    pub fn for_identifier(name: &Vec<u8>) -> (r: LogId)
        ensures
            r.digest@ == sha256_of(name@),
    {
        LogId { digest: crate::hash::digest(name) }
    }

    /// Compares two log identities.
    pub fn equals(&self, other: &LogId) -> (r: bool)
        ensures
            r == (self.digest@ == other.digest@),
    {
        digest_eq(&self.digest, &other.digest)
    }
}

impl RecordId {
    /// Compares two record identities.
    pub fn equals(&self, other: &RecordId) -> (r: bool)
        ensures
            r == (self.digest@ == other.digest@),
    {
        digest_eq(&self.digest, &other.digest)
    }
}

impl KeyId {
    /// Compares two key identities.
    pub fn equals(&self, other: &KeyId) -> (r: bool)
        ensures
            r == (self.digest@ == other.digest@),
    {
        digest_eq(&self.digest, &other.digest)
    }
}

impl LogLeaf {
    /// Hashes this leaf under the leaf domain prefix, as it is committed
    /// to the global Merkle tree.
    pub fn leaf_digest(&self) -> (r: Digest)
        ensures
            r@ == leaf_digest_of(*self),
    {
        let mut content: Vec<u8> = Vec::new();
        append_digest(&mut content, &self.log_id.digest);
        append_digest(&mut content, &self.record_id.digest);
        assert(content@ =~= leaf_content_of(*self));
        hash_leaf_content(&content)
    }
}

} // verus!
