//! The checkpoint tracker: maintains the latest trusted checkpoint per
//! registry and rejects rollback and fork attempts.

use vstd::prelude::*;
use crate::hash::{Digest, digest_eq};
use crate::proofs::{ConsistencyProof, ProofError, digests_of, verify_consistency,
    verify_consistency_spec};

verus! {

/// A commitment to the global Merkle tree: the tree's root digest, its
/// length in leaves, and the registry's timestamp for it.
#[derive(Clone, Copy, Debug)]
pub struct Checkpoint {
    /// The root digest of the committed tree.
    pub root: Digest,
    /// The number of leaves in the committed tree.
    pub tree_length: u64,
    /// The registry's timestamp, in seconds.
    pub timestamp: u64,
}

/// A registry integrity violation observed while accepting a checkpoint;
/// fatal and surfaced to the caller as a trust-breaking condition.
#[derive(Clone, Copy, Debug, PartialEq, Eq, Structural)]
pub enum CheckpointError {
    /// The candidate's tree is shorter than the known checkpoint's tree.
    Rollback,
    /// The candidate has the known checkpoint's tree length but a
    /// different root.
    Fork,
    /// The candidate's tree is longer than the known checkpoint's tree and
    /// no consistency proof was supplied.
    MissingProof,
    /// The supplied consistency proof failed verification.
    Proof(ProofError),
}

/// What accepting a checkpoint returns: the candidate is taken as the new
/// baseline when nothing is known; a shorter tree is a rollback; an equal
/// length demands an equal root (and keeps the known checkpoint); a longer
/// tree demands a verified consistency proof.
pub open spec fn accept_spec(
    candidate: Checkpoint,
    known: Option<Checkpoint>,
    path: Option<Seq<Seq<u8>>>,
) -> Result<Checkpoint, CheckpointError> {
    match known {
        None => Ok(candidate),
        Some(k) => {
            if candidate.tree_length < k.tree_length {
                Err(CheckpointError::Rollback)
            } else if candidate.tree_length == k.tree_length {
                if candidate.root@ == k.root@ {
                    Ok(k)
                } else {
                    Err(CheckpointError::Fork)
                }
            } else {
                match path {
                    None => Err(CheckpointError::MissingProof),
                    Some(p) => match verify_consistency_spec(k, candidate, p) {
                        Ok(()) => Ok(candidate),
                        Err(e) => Err(CheckpointError::Proof(e)),
                    },
                }
            }
        },
    }
}

/// The proof sequence an optional consistency proof stands for.
pub open spec fn proof_path_of(cons: Option<&ConsistencyProof>) -> Option<Seq<Seq<u8>>> {
    match cons {
        None => None,
        Some(p) => Some(digests_of(p.hashes@)),
    }
}

/// Decides whether `candidate` may replace `known` as the latest trusted
/// checkpoint. Returns the checkpoint to persist; the caller owns durable
/// storage and must serialize writes per registry.
pub fn accept(
    candidate: Checkpoint,
    known: Option<Checkpoint>,
    cons: Option<&ConsistencyProof>,
) -> (r: Result<Checkpoint, CheckpointError>)
    requires
        candidate.tree_length < u64::MAX,
    ensures
        r == accept_spec(candidate, known, proof_path_of(cons)),
{
    match known {
        None => Ok(candidate),
        Some(k) => {
            if candidate.tree_length < k.tree_length {
                Err(CheckpointError::Rollback)
            } else if candidate.tree_length == k.tree_length {
                if digest_eq(&candidate.root, &k.root) {
                    Ok(k)
                } else {
                    Err(CheckpointError::Fork)
                }
            } else {
                match cons {
                    None => Err(CheckpointError::MissingProof),
                    Some(p) => match verify_consistency(&k, &candidate, p) {
                        Ok(()) => Ok(candidate),
                        Err(e) => Err(CheckpointError::Proof(e)),
                    },
                }
            }
        },
    }
}

/// For a candidate with a longer tree than the known checkpoint, acceptance
/// succeeds exactly when a consistency proof is supplied and verifies; a
/// missing proof is `MissingProof` and a failing one carries its
/// `ProofError` unmodified.
pub proof fn lemma_accept_needs_consistency(
    candidate: Checkpoint,
    known: Checkpoint,
    path: Option<Seq<Seq<u8>>>,
)
    requires
        candidate.tree_length > known.tree_length,
    ensures
        path is None ==> accept_spec(candidate, Some(known), path) == Err::<
            Checkpoint,
            CheckpointError,
        >(CheckpointError::MissingProof),
        path matches Some(p) ==> (accept_spec(candidate, Some(known), path) == Ok::<
            Checkpoint,
            CheckpointError,
        >(candidate) <==> verify_consistency_spec(known, candidate, p) is Ok),
        forall|p: Seq<Seq<u8>>, e: ProofError|
            path == Some(p) && verify_consistency_spec(known, candidate, p) == Err::<
                (),
                ProofError,
            >(e) ==> accept_spec(candidate, Some(known), path) == Err::<
                Checkpoint,
                CheckpointError,
            >(CheckpointError::Proof(e)),
{
}

/// For checkpoints of equal tree length, acceptance is idempotent: it
/// returns the known checkpoint exactly when the roots agree, and fails
/// with `Fork` otherwise.
pub proof fn lemma_accept_equal_length(
    candidate: Checkpoint,
    known: Checkpoint,
    path: Option<Seq<Seq<u8>>>,
)
    requires
        candidate.tree_length == known.tree_length,
    ensures
        candidate.root@ == known.root@ ==> accept_spec(candidate, Some(known), path) == Ok::<
            Checkpoint,
            CheckpointError,
        >(known),
        candidate.root@ != known.root@ ==> accept_spec(candidate, Some(known), path) == Err::<
            Checkpoint,
            CheckpointError,
        >(CheckpointError::Fork),
{
}

/// A candidate with a smaller tree length than the known checkpoint is
/// always rejected as a rollback, whatever proof accompanies it.
pub proof fn lemma_accept_rollback(
    candidate: Checkpoint,
    known: Checkpoint,
    path: Option<Seq<Seq<u8>>>,
)
    requires
        candidate.tree_length < known.tree_length,
    ensures
        accept_spec(candidate, Some(known), path) == Err::<Checkpoint, CheckpointError>(
            CheckpointError::Rollback,
        ),
{
}

} // verus!
