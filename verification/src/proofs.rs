//! The proof verifier: recomputes Merkle audit paths to check that log
//! leaves are included in a checkpoint's tree (inclusion proofs) and that
//! one checkpoint's tree is a prefix of a later one (consistency proofs).

use vstd::prelude::*;
use crate::hash::{Digest, digest_eq, node_hash, node_hash_of};
use crate::registry::{LogLeaf, leaf_digest_of};
use crate::checkpoint::Checkpoint;

verus! {

/// A structural or cryptographic proof-verification failure; always fatal
/// to the attempt, never retried on the same inputs.
#[derive(Clone, Copy, Debug, PartialEq, Eq, Structural)]
pub enum ProofError {
    /// The recomputed root does not match the checkpoint's root.
    IncorrectProof,
    /// The proof's shape (sibling count, leaf position) is invalid for the
    /// claimed tree length.
    BundleFailure,
}

/// The audit path for one leaf: its position in the tree and the sibling
/// digests from the leaf up to the root.
#[derive(Debug)]
pub struct LeafPath {
    /// The leaf's position in the committed tree.
    pub index: u64,
    /// The sibling digests, ordered from the leaf upward.
    pub hashes: Vec<Digest>,
}

/// An inclusion proof: one audit path per leaf, in leaf order.
#[derive(Debug)]
pub struct InclusionProof {
    /// The audit paths, one per leaf being proven.
    pub paths: Vec<LeafPath>,
}

/// A consistency proof: the node digests that tie an earlier tree to a
/// later one, ordered from the bottom upward.
#[derive(Debug)]
pub struct ConsistencyProof {
    /// The proof's node digests.
    pub hashes: Vec<Digest>,
}

/// The views of a sequence of digests.
pub open spec fn digests_of(s: Seq<Digest>) -> Seq<Seq<u8>> {
    s.map_values(|d: Digest| d@)
}

/// The size of the left subtree of a Merkle tree over `n` leaves: the
/// largest power of two strictly below `n`.
pub open spec fn split(n: nat) -> nat
    decreases n,
{
    if n <= 2 {
        1
    } else {
        2 * split((n + 1) / 2)
    }
}

/// The split point lies in the open interval: `split(n) < n <= 2 * split(n)`.
pub proof fn lemma_split_bounds(n: nat)
    requires
        n >= 2,
    ensures
        1 <= split(n),
        split(n) < n,
        n <= 2 * split(n),
    decreases n,
{
    if n > 2 {
        lemma_split_bounds((n + 1) / 2);
    }
}

fn split_exec(n: u64) -> (k: u64)
    requires
        2 <= n < u64::MAX,
    ensures
        k as nat == split(n as nat),
        1 <= k < n,
        n <= 2 * k,
    decreases n,
{
    proof {
        lemma_split_bounds(n as nat);
    }
    if n <= 2 {
        1
    } else {
        let m = (n + 1) / 2;
        proof {
            lemma_split_bounds(m as nat);
        }
        2 * split_exec(m)
    }
}

/// The root obtained by recombining `leaf` (sitting at `index` in a tree of
/// `size` leaves) with the sibling digests of `path`, or `None` when the
/// path's shape does not fit the claimed position and size.
pub open spec fn merkle_root(index: nat, size: nat, leaf: Seq<u8>, path: Seq<Seq<u8>>) -> Option<
    Seq<u8>,
>
    decreases path.len(),
{
    if size == 0 {
        None
    } else if size == 1 {
        if index == 0 && path.len() == 0 {
            Some(leaf)
        } else {
            None
        }
    } else if path.len() == 0 {
        None
    } else {
        let k = split(size);
        let sib = path.last();
        let rest = path.drop_last();
        if index < k {
            match merkle_root(index, k, leaf, rest) {
                None => None,
                Some(h) => Some(node_hash_of(h, sib)),
            }
        } else if index < size {
            match merkle_root((index - k) as nat, (size - k) as nat, leaf, rest) {
                None => None,
                Some(h) => Some(node_hash_of(sib, h)),
            }
        } else {
            None
        }
    }
}

fn compute_root(index: u64, size: u64, leaf: &Digest, path: &Vec<Digest>, plen: usize) -> (r:
    Option<Digest>)
    requires
        plen <= path@.len(),
        size < u64::MAX,
    ensures
        match r {
            Some(d) => merkle_root(
                index as nat,
                size as nat,
                leaf@,
                digests_of(path@.subrange(0, plen as int)),
            ) == Some(d@),
            None => merkle_root(
                index as nat,
                size as nat,
                leaf@,
                digests_of(path@.subrange(0, plen as int)),
            ) is None,
        },
    decreases plen,
{
    let ghost spec_path = digests_of(path@.subrange(0, plen as int));
    if size == 0 {
        None
    } else if size == 1 {
        if index == 0 && plen == 0 {
            Some(*leaf)
        } else {
            None
        }
    } else if plen == 0 {
        None
    } else {
        proof {
            assert(spec_path.drop_last() =~= digests_of(path@.subrange(0, plen - 1 as int)));
            assert(spec_path.last() == path@[plen - 1]@);
        }
        let k = split_exec(size);
        let sib = path[plen - 1];
        if index < k {
            match compute_root(index, k, leaf, path, plen - 1) {
                None => None,
                Some(h) => Some(node_hash(&h, &sib)),
            }
        } else if index < size {
            match compute_root(index - k, size - k, leaf, path, plen - 1) {
                None => None,
                Some(h) => Some(node_hash(&sib, &h)),
            }
        } else {
            None
        }
    }
}

/// The root recomputed for the `i`-th proven leaf.
pub open spec fn entry_root(leaf: LogLeaf, lp: LeafPath, size: nat) -> Option<Seq<u8>> {
    merkle_root(lp.index as nat, size, leaf_digest_of(leaf), digests_of(lp.hashes@))
}

/// What inclusion verification returns: `BundleFailure` when the proof's
/// shape does not fit the leaves and tree length, `IncorrectProof` when a
/// recomputed root differs from the checkpoint's, `Ok` otherwise.
pub open spec fn verify_inclusion_spec(
    leaves: Seq<LogLeaf>,
    paths: Seq<LeafPath>,
    cp: Checkpoint,
) -> Result<(), ProofError> {
    if paths.len() != leaves.len() {
        Err(ProofError::BundleFailure)
    } else if exists|i: int|
        0 <= i < leaves.len() && entry_root(leaves[i], paths[i], cp.tree_length as nat) is None {
        Err(ProofError::BundleFailure)
    } else if exists|i: int|
        0 <= i < leaves.len() && entry_root(leaves[i], paths[i], cp.tree_length as nat) != Some(
            cp.root@,
        ) {
        Err(ProofError::IncorrectProof)
    } else {
        Ok(())
    }
}

/// Confirms that every leaf is positioned in a tree of length
/// `checkpoint.tree_length` whose root equals `checkpoint.root`.
pub fn verify_inclusion(leaves: &Vec<LogLeaf>, checkpoint: &Checkpoint, bundle: &InclusionProof) -> (
    r: Result<(), ProofError>)
    requires
        checkpoint.tree_length < u64::MAX,
    ensures
        r == verify_inclusion_spec(leaves@, bundle.paths@, *checkpoint),
        r is Ok ==> forall|i: int|
            0 <= i < leaves@.len() ==> entry_root(
                leaves@[i],
                bundle.paths@[i],
                checkpoint.tree_length as nat,
            ) == Some(checkpoint.root@),
{
    if bundle.paths.len() != leaves.len() {
        return Err(ProofError::BundleFailure);
    }
    let mut i: usize = 0;
    while i < leaves.len()
        invariant
            leaves@.len() == bundle.paths@.len(),
            i <= leaves@.len(),
            checkpoint.tree_length < u64::MAX,
            forall|j: int|
                0 <= j < i ==> !(entry_root(
                    leaves@[j],
                    bundle.paths@[j],
                    checkpoint.tree_length as nat,
                ) is None),
        decreases leaves@.len() - i,
    {
        let leaf_digest = leaves[i].leaf_digest();
        let lp = &bundle.paths[i];
        proof {
            assert(lp.hashes@.subrange(0, lp.hashes@.len() as int) =~= lp.hashes@);
        }
        match compute_root(lp.index, checkpoint.tree_length, &leaf_digest, &lp.hashes,
            lp.hashes.len()) {
            None => {
                return Err(ProofError::BundleFailure);
            },
            Some(_) => {},
        }
        i = i + 1;
    }
    let mut i: usize = 0;
    while i < leaves.len()
        invariant
            leaves@.len() == bundle.paths@.len(),
            i <= leaves@.len(),
            checkpoint.tree_length < u64::MAX,
            forall|j: int|
                0 <= j < leaves@.len() ==> !(entry_root(
                    leaves@[j],
                    bundle.paths@[j],
                    checkpoint.tree_length as nat,
                ) is None),
            forall|j: int|
                0 <= j < i ==> entry_root(
                    leaves@[j],
                    bundle.paths@[j],
                    checkpoint.tree_length as nat,
                ) == Some(checkpoint.root@),
        decreases leaves@.len() - i,
    {
        let leaf_digest = leaves[i].leaf_digest();
        let lp = &bundle.paths[i];
        proof {
            assert(lp.hashes@.subrange(0, lp.hashes@.len() as int) =~= lp.hashes@);
        }
        match compute_root(lp.index, checkpoint.tree_length, &leaf_digest, &lp.hashes,
            lp.hashes.len()) {
            None => {
                assert(false);
                return Err(ProofError::BundleFailure);
            },
            Some(root) => {
                if !digest_eq(&root, &checkpoint.root) {
                    return Err(ProofError::IncorrectProof);
                }
            },
        }
        i = i + 1;
    }
    Ok(())
}

/// The pair of roots (earlier tree, later tree) recombined from a
/// consistency proof, or `None` when the proof's shape does not fit.
/// `flag` records whether the earlier tree is still a whole subtree on the
/// current path; `old_root` seeds the recombination in that case.
pub open spec fn cons_roots(
    m: nat,
    n: nat,
    flag: bool,
    old_root: Seq<u8>,
    path: Seq<Seq<u8>>,
) -> Option<(Seq<u8>, Seq<u8>)>
    decreases path.len(),
{
    if m == 0 || n == 0 || m > n {
        None
    } else if m == n {
        if flag {
            if path.len() == 0 {
                Some((old_root, old_root))
            } else {
                None
            }
        } else {
            if path.len() == 1 {
                Some((path[0], path[0]))
            } else {
                None
            }
        }
    } else if path.len() == 0 {
        None
    } else {
        let k = split(n);
        let sib = path.last();
        let rest = path.drop_last();
        if m <= k {
            match cons_roots(m, k, flag, old_root, rest) {
                None => None,
                Some(pr) => Some((pr.0, node_hash_of(pr.1, sib))),
            }
        } else {
            match cons_roots((m - k) as nat, (n - k) as nat, false, old_root, rest) {
                None => None,
                Some(pr) => Some((node_hash_of(sib, pr.0), node_hash_of(sib, pr.1))),
            }
        }
    }
}

fn compute_cons(m: u64, n: u64, flag: bool, old_root: &Digest, path: &Vec<Digest>, plen: usize) -> (
    r: Option<(Digest, Digest)>)
    requires
        plen <= path@.len(),
        n < u64::MAX,
    ensures
        match r {
            Some(pr) => cons_roots(
                m as nat,
                n as nat,
                flag,
                old_root@,
                digests_of(path@.subrange(0, plen as int)),
            ) == Some((pr.0@, pr.1@)),
            None => cons_roots(
                m as nat,
                n as nat,
                flag,
                old_root@,
                digests_of(path@.subrange(0, plen as int)),
            ) is None,
        },
    decreases plen,
{
    let ghost spec_path = digests_of(path@.subrange(0, plen as int));
    if m == 0 || n == 0 || m > n {
        None
    } else if m == n {
        if flag {
            if plen == 0 {
                Some((*old_root, *old_root))
            } else {
                None
            }
        } else {
            if plen == 1 {
                let h = path[0];
                Some((h, h))
            } else {
                None
            }
        }
    } else if plen == 0 {
        None
    } else {
        proof {
            assert(spec_path.drop_last() =~= digests_of(path@.subrange(0, plen - 1 as int)));
            assert(spec_path.last() == path@[plen - 1]@);
        }
        let k = split_exec(n);
        let sib = path[plen - 1];
        if m <= k {
            match compute_cons(m, k, flag, old_root, path, plen - 1) {
                None => None,
                Some(pr) => Some((pr.0, node_hash(&pr.1, &sib))),
            }
        } else {
            match compute_cons(m - k, n - k, false, old_root, path, plen - 1) {
                None => None,
                Some(pr) => Some((node_hash(&sib, &pr.0), node_hash(&sib, &pr.1))),
            }
        }
    }
}

/// What consistency verification returns: the earlier checkpoint must be a
/// verifiable prefix of the later one. Equal tree lengths demand equal
/// roots and an empty proof; an empty earlier tree is vacuously a prefix;
/// otherwise both roots recombined from the proof must match.
pub open spec fn verify_consistency_spec(
    old_cp: Checkpoint,
    new_cp: Checkpoint,
    path: Seq<Seq<u8>>,
) -> Result<(), ProofError> {
    let m = old_cp.tree_length as nat;
    let n = new_cp.tree_length as nat;
    if m > n {
        Err(ProofError::BundleFailure)
    } else if m == n {
        if path.len() != 0 {
            Err(ProofError::BundleFailure)
        } else if old_cp.root@ == new_cp.root@ {
            Ok(())
        } else {
            Err(ProofError::IncorrectProof)
        }
    } else if m == 0 {
        if path.len() == 0 {
            Ok(())
        } else {
            Err(ProofError::BundleFailure)
        }
    } else {
        match cons_roots(m, n, true, old_cp.root@, path) {
            None => Err(ProofError::BundleFailure),
            Some(pr) => if pr.0 == old_cp.root@ && pr.1 == new_cp.root@ {
                Ok(())
            } else {
                Err(ProofError::IncorrectProof)
            },
        }
    }
}

/// Confirms that `old_cp`'s tree is a prefix of `new_cp`'s tree: the Merkle
/// root of the first `old_cp.tree_length` leaves of the later tree equals
/// `old_cp.root`.
pub fn verify_consistency(old_cp: &Checkpoint, new_cp: &Checkpoint, cons: &ConsistencyProof) -> (r:
    Result<(), ProofError>)
    requires
        new_cp.tree_length < u64::MAX,
    ensures
        r == verify_consistency_spec(*old_cp, *new_cp, digests_of(cons.hashes@)),
{
    proof {
        assert(cons.hashes@.subrange(0, cons.hashes@.len() as int) =~= cons.hashes@);
    }
    if old_cp.tree_length > new_cp.tree_length {
        return Err(ProofError::BundleFailure);
    }
    if old_cp.tree_length == new_cp.tree_length {
        if cons.hashes.len() != 0 {
            return Err(ProofError::BundleFailure);
        }
        if digest_eq(&old_cp.root, &new_cp.root) {
            return Ok(());
        }
        return Err(ProofError::IncorrectProof);
    }
    if old_cp.tree_length == 0 {
        if cons.hashes.len() == 0 {
            return Ok(());
        }
        return Err(ProofError::BundleFailure);
    }
    match compute_cons(old_cp.tree_length, new_cp.tree_length, true, &old_cp.root, &cons.hashes,
        cons.hashes.len()) {
        None => Err(ProofError::BundleFailure),
        Some(pr) => {
            if digest_eq(&pr.0, &old_cp.root) && digest_eq(&pr.1, &new_cp.root) {
                Ok(())
            } else {
                Err(ProofError::IncorrectProof)
            }
        },
    }
}

/// Inclusion verification is deterministic: the outcome is a function of the
/// leaves, the proof, and the checkpoint alone, so any two verifications of
/// the same inputs agree.
pub proof fn lemma_inclusion_deterministic(
    leaves: Seq<LogLeaf>,
    paths: Seq<LeafPath>,
    cp: Checkpoint,
    r1: Result<(), ProofError>,
    r2: Result<(), ProofError>,
)
    requires
        r1 == verify_inclusion_spec(leaves, paths, cp),
        r2 == verify_inclusion_spec(leaves, paths, cp),
    ensures
        r1 == r2,
{
}

} // verus!
