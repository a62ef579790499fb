//! The publish state machine: stages a record for one log, uploads missing
//! content, submits, and polls until the record is included and proven, or
//! until it is rejected or fails. Each transition is a pure function from
//! state and event to the next state; the caller performs the network
//! round-trips between transitions and owns at most one in-flight publish
//! per log.

use vstd::prelude::*;
use crate::ClientError;
use crate::checkpoint::{Checkpoint, CheckpointError, accept, accept_spec};
use crate::hash::{Digest, digest_eq};
use crate::proofs::{ConsistencyProof, InclusionProof, ProofError, digests_of, verify_inclusion,
    verify_inclusion_spec};
use crate::registry::{LogId, LogLeaf, PackageId, RecordId};
use crate::state::{PackageInfo, PackageOp, PackageRecord};

verus! {

/// A locally staged, not-yet-committed record for one log.
#[derive(Debug)]
pub struct PublishEntry {
    /// The package the record belongs to, as callers name it.
    pub package_id: PackageId,
    /// The identity of the log being appended to.
    pub log_id: LogId,
    /// The staged record.
    pub record: PackageRecord,
}

/// A terminal publish failure.
#[derive(Clone, Copy, Debug, PartialEq, Eq, Structural)]
pub enum PublishFailure {
    /// The registry-reported inclusion proof failed verification.
    Proof(ProofError),
    /// The included checkpoint was not accepted against the known one.
    Checkpoint(CheckpointError),
    /// Polling exhausted its bounded attempt count.
    Timeout,
}

/// The state of one publish workflow.
#[derive(Debug)]
pub enum PublishState {
    /// No publish is in progress.
    Idle,
    /// A record is staged and not yet submitted.
    Staged {
        /// The staged entry.
        entry: PublishEntry,
    },
    /// Content the registry reported missing is being uploaded.
    ContentUploading {
        /// The staged entry.
        entry: PublishEntry,
        /// The digests still to upload.
        pending: Vec<Digest>,
    },
    /// The record was submitted and assigned an identity.
    Submitted {
        /// The staged entry.
        entry: PublishEntry,
        /// The identity the registry assigned.
        record_id: RecordId,
    },
    /// The engine is polling for the record's inclusion.
    AwaitingInclusion {
        /// The staged entry.
        entry: PublishEntry,
        /// The identity the registry assigned.
        record_id: RecordId,
        /// The polls made so far.
        attempts: u64,
    },
    /// The record is included and its proofs verified; terminal success.
    Committed {
        /// The identity of the committed record.
        record_id: RecordId,
        /// The accepted checkpoint that includes the record.
        checkpoint: Checkpoint,
    },
    /// The registry rejected the record; terminal, never retried.
    Rejected {
        /// The identity of the rejected record.
        record_id: RecordId,
        /// The registry's reason, verbatim.
        reason: String,
    },
    /// The publish failed; terminal.
    Failed {
        /// What failed.
        failure: PublishFailure,
    },
}

/// What the registry reports for a submitted record.
#[derive(Debug)]
pub enum RecordStatus {
    /// The record is still being processed.
    Pending,
    /// The registry rejected the record.
    Rejected {
        /// The registry's reason, verbatim.
        reason: String,
    },
    /// The record is included in the tree the checkpoint commits to.
    Included {
        /// The checkpoint whose tree includes the record.
        checkpoint: Checkpoint,
        /// The leaf the record occupies.
        leaf: LogLeaf,
        /// The proof that the leaf is included.
        inclusion: InclusionProof,
        /// The proof tying the previously known checkpoint to this one.
        consistency: Option<ConsistencyProof>,
    },
}

/// Whether a publish is between staging and inclusion: a new publish for
/// the same log may not start while this holds.
pub open spec fn in_flight(s: PublishState) -> bool {
    ||| s matches PublishState::Staged { .. }
    ||| s matches PublishState::ContentUploading { .. }
    ||| s matches PublishState::Submitted { .. }
    ||| s matches PublishState::AwaitingInclusion { .. }
}

/// Whether any staged operation initializes the log.
pub open spec fn stages_init(ops: Seq<PackageOp>) -> bool {
    exists|j: int| 0 <= j < ops.len() && (#[trigger] ops[j]) matches PackageOp::Init { .. }
}

/// What staging must return: a publish already in flight is refused; an
/// empty staged set has nothing to publish; a log without records demands
/// an init first; an initialized log refuses another init; otherwise the
/// entry is staged.
pub open spec fn stage_post(
    r: Result<PublishState, ClientError>,
    current: PublishState,
    info: PackageInfo,
    record: PackageRecord,
    package_id: PackageId,
    log_id: LogId,
) -> bool {
    if in_flight(current) {
        r matches Err(ClientError::PublishInProgress { id }) && id@ == package_id@
    } else if record.operations@.len() == 0 {
        r matches Err(ClientError::NothingToPublish { id }) && id@ == package_id@
    } else if info.records@.len() == 0 && !(record.operations@[0] matches PackageOp::Init { .. }) {
        r matches Err(ClientError::MustInitializePackage { id }) && id@ == package_id@
    } else if info.records@.len() > 0 && stages_init(record.operations@) {
        r matches Err(ClientError::CannotInitializePackage { id }) && id@ == package_id@
    } else {
        r matches Ok(s) && s matches PublishState::Staged { entry } && entry.package_id@
            == package_id@ && entry.log_id == log_id && entry.record == record
    }
}

/// Stages a record for publication on one log.
pub fn stage(
    current: &PublishState,
    package_id: PackageId,
    log_id: LogId,
    info: &PackageInfo,
    record: PackageRecord,
) -> (r: Result<PublishState, ClientError>)
    ensures
        stage_post(r, *current, *info, record, package_id, log_id),
{
    let busy: bool = match current {
        PublishState::Staged { .. } => true,
        PublishState::ContentUploading { .. } => true,
        PublishState::Submitted { .. } => true,
        PublishState::AwaitingInclusion { .. } => true,
        _ => false,
    };
    if busy {
        return Err(ClientError::PublishInProgress { id: package_id });
    }
    if record.operations.len() == 0 {
        return Err(ClientError::NothingToPublish { id: package_id });
    }
    if info.records.len() == 0 {
        let first_is_init: bool = match &record.operations[0] {
            PackageOp::Init { .. } => true,
            _ => false,
        };
        if !first_is_init {
            return Err(ClientError::MustInitializePackage { id: package_id });
        }
    } else {
        let mut j: usize = 0;
        while j < record.operations.len()
            invariant
                j <= record.operations@.len(),
                !in_flight(*current),
                record.operations@.len() > 0,
                info.records@.len() > 0,
                forall|j2: int|
                    0 <= j2 < j ==> !((#[trigger] record.operations@[j2]) matches PackageOp::Init {
                        ..
                    }),
            decreases record.operations@.len() - j,
        {
            match &record.operations[j] {
                PackageOp::Init { .. } => {
                    assert(stages_init(record.operations@));
                    return Err(ClientError::CannotInitializePackage { id: package_id });
                },
                _ => {},
            }
            j = j + 1;
        }
    }
    Ok(PublishState::Staged { entry: PublishEntry { package_id, log_id, record } })
}

/// Whether a digest is among the available ones.
pub open spec fn digest_available(available: Seq<Digest>, d: Digest) -> bool {
    exists|i: int| 0 <= i < available.len() && (#[trigger] available[i])@ == d@
}

fn find_digest(available: &Vec<Digest>, d: &Digest) -> (r: bool)
    ensures
        r == digest_available(available@, *d),
{
    let mut i: usize = 0;
    while i < available.len()
        invariant
            i <= available@.len(),
            forall|j: int| 0 <= j < i ==> (#[trigger] available@[j])@ != d@,
        decreases available@.len() - i,
    {
        if digest_eq(&available[i], d) {
            return true;
        }
        i = i + 1;
    }
    false
}

/// What planning uploads must return: from `Staged`, every digest the
/// registry reported missing must be available locally, or the first
/// unavailable one is named in `ContentNotFound`; a second missing-content
/// report after uploading is `PackageMissingContent`; any other state is
/// not publishing.
pub open spec fn plan_uploads_post(
    r: Result<PublishState, ClientError>,
    current: PublishState,
    missing: Seq<Digest>,
    available: Seq<Digest>,
) -> bool {
    match current {
        PublishState::Staged { entry } => {
            if forall|j: int| 0 <= j < missing.len() ==> digest_available(available, #[trigger] missing[j]) {
                r matches Ok(s) && s matches PublishState::ContentUploading {
                    entry: e,
                    pending,
                } && e == entry && pending@ == missing
            } else {
                exists|j: int|
                    {
                        &&& 0 <= j < missing.len()
                        &&& !digest_available(available, #[trigger] missing[j])
                        &&& forall|k: int| 0 <= k < j ==> digest_available(available, #[trigger] missing[k])
                        &&& r matches Err(ClientError::ContentNotFound { digest }) && digest@
                            == missing[j]@
                    }
            }
        },
        PublishState::ContentUploading { .. } => r matches Err(
            ClientError::PackageMissingContent,
        ),
        _ => r matches Err(ClientError::NotPublishing),
    }
}

/// Plans the uploads for the digests the registry reported missing.
pub fn plan_uploads(current: PublishState, missing: &Vec<Digest>, available: &Vec<Digest>) -> (r:
    Result<PublishState, ClientError>)
    ensures
        plan_uploads_post(r, current, missing@, available@),
{
    match current {
        PublishState::Staged { entry } => {
            let mut j: usize = 0;
            while j < missing.len()
                invariant
                    j <= missing@.len(),
                    current matches PublishState::Staged { .. },
                    forall|k: int|
                        0 <= k < j ==> digest_available(available@, #[trigger] missing@[k]),
                decreases missing@.len() - j,
            {
                if !find_digest(available, &missing[j]) {
                    return Err(ClientError::ContentNotFound { digest: missing[j] });
                }
                j = j + 1;
            }
            let mut pending: Vec<Digest> = Vec::new();
            let mut k: usize = 0;
            while k < missing.len()
                invariant
                    k <= missing@.len(),
                    pending@ == missing@.subrange(0, k as int),
                decreases missing@.len() - k,
            {
                pending.push(missing[k]);
                assert(pending@ =~= missing@.subrange(0, k + 1 as int));
                k = k + 1;
            }
            assert(pending@ =~= missing@);
            Ok(PublishState::ContentUploading { entry, pending })
        },
        PublishState::ContentUploading { .. } => Err(ClientError::PackageMissingContent),
        _ => Err(ClientError::NotPublishing),
    }
}

/// What recording a submission must return: a staged or uploading publish
/// moves to `Submitted` under the registry-assigned record identity; any
/// other state is not publishing.
pub open spec fn on_submitted_post(
    r: Result<PublishState, ClientError>,
    current: PublishState,
    record_id: RecordId,
) -> bool {
    match current {
        PublishState::Staged { entry } => r matches Ok(s) && s matches PublishState::Submitted {
            entry: e,
            record_id: rid,
        } && e == entry && rid == record_id,
        PublishState::ContentUploading { entry, .. } => r matches Ok(s) && s
            matches PublishState::Submitted { entry: e, record_id: rid } && e == entry && rid
            == record_id,
        _ => r matches Err(ClientError::NotPublishing),
    }
}

/// Records that the staged entry was submitted and the registry assigned
/// it a record identity.
pub fn on_submitted(current: PublishState, record_id: RecordId) -> (r: Result<
    PublishState,
    ClientError,
>)
    ensures
        on_submitted_post(r, current, record_id),
{
    match current {
        PublishState::Staged { entry } => Ok(PublishState::Submitted { entry, record_id }),
        PublishState::ContentUploading { entry, .. } => Ok(
            PublishState::Submitted { entry, record_id },
        ),
        _ => Err(ClientError::NotPublishing),
    }
}

/// The proof sequence an optional consistency proof stands for.
pub open spec fn cons_path_of(cons: Option<ConsistencyProof>) -> Option<Seq<Seq<u8>>> {
    match cons {
        None => None,
        Some(p) => Some(digests_of(p.hashes@)),
    }
}

/// What one poll outcome must produce, for a publish at `attempts` polls.
/// A pending report either keeps waiting or times out at the bound; a
/// rejection is terminal and carries the registry's reason verbatim; an
/// inclusion report is committed only when the reported leaf is the
/// submitted record, its inclusion proof verifies, and the checkpoint is
/// accepted against the known one — otherwise the publish fails.
pub open spec fn poll_post(
    r: Result<PublishState, ClientError>,
    entry: PublishEntry,
    record_id: RecordId,
    attempts: u64,
    status: RecordStatus,
    known: Option<Checkpoint>,
    max_attempts: u64,
) -> bool {
    match status {
        RecordStatus::Pending => {
            if attempts + 1 >= max_attempts {
                r matches Ok(s) && s matches PublishState::Failed { failure } && failure
                    == PublishFailure::Timeout
            } else {
                r matches Ok(s) && s matches PublishState::AwaitingInclusion {
                    entry: e,
                    record_id: rid,
                    attempts: a,
                } && e == entry && rid == record_id && a == attempts + 1
            }
        },
        RecordStatus::Rejected { reason } => r matches Ok(s) && s
            matches PublishState::Rejected { record_id: rid, reason: rs } && rid == record_id && rs
            == reason,
        RecordStatus::Included { checkpoint, leaf, inclusion, consistency } => {
            if !(leaf.record_id.digest@ == record_id.digest@ && leaf.log_id.digest@
                == entry.log_id.digest@) {
                r matches Ok(s) && s matches PublishState::Failed { failure } && failure
                    == PublishFailure::Proof(ProofError::BundleFailure)
            } else {
                match verify_inclusion_spec(seq![leaf], inclusion.paths@, checkpoint) {
                    Err(e) => r matches Ok(s) && s matches PublishState::Failed { failure }
                        && failure == PublishFailure::Proof(e),
                    Ok(()) => match accept_spec(checkpoint, known, cons_path_of(consistency)) {
                        Err(ce) => r matches Ok(s) && s matches PublishState::Failed { failure }
                            && failure == PublishFailure::Checkpoint(ce),
                        Ok(cp) => r matches Ok(s) && s matches PublishState::Committed {
                            record_id: rid,
                            checkpoint: c,
                        } && rid == record_id && c == cp,
                    },
                }
            }
        },
    }
}

/// What handling a poll response must return: only a submitted or polling
/// publish may consume a status report.
pub open spec fn on_status_post(
    r: Result<PublishState, ClientError>,
    current: PublishState,
    status: RecordStatus,
    known: Option<Checkpoint>,
    max_attempts: u64,
) -> bool {
    match current {
        PublishState::Submitted { entry, record_id } => poll_post(
            r,
            entry,
            record_id,
            0,
            status,
            known,
            max_attempts,
        ),
        PublishState::AwaitingInclusion { entry, record_id, attempts } => poll_post(
            r,
            entry,
            record_id,
            attempts,
            status,
            known,
            max_attempts,
        ),
        _ => r matches Err(ClientError::NotPublishing),
    }
}

fn poll_step(
    entry: PublishEntry,
    record_id: RecordId,
    attempts: u64,
    status: RecordStatus,
    known: Option<Checkpoint>,
    max_attempts: u64,
) -> (r: Result<PublishState, ClientError>)
    requires
        status matches RecordStatus::Included { checkpoint, .. } ==> checkpoint.tree_length
            < u64::MAX,
    ensures
        poll_post(r, entry, record_id, attempts, status, known, max_attempts),
{
    match status {
        RecordStatus::Pending => {
            if attempts >= max_attempts {
                Ok(PublishState::Failed { failure: PublishFailure::Timeout })
            } else if attempts + 1 >= max_attempts {
                Ok(PublishState::Failed { failure: PublishFailure::Timeout })
            } else {
                Ok(
                    PublishState::AwaitingInclusion {
                        entry,
                        record_id,
                        attempts: attempts + 1,
                    },
                )
            }
        },
        RecordStatus::Rejected { reason } => Ok(PublishState::Rejected { record_id, reason }),
        RecordStatus::Included { checkpoint, leaf, inclusion, consistency } => {
            let leaf_matches = digest_eq(&leaf.record_id.digest, &record_id.digest) && digest_eq(
                &leaf.log_id.digest,
                &entry.log_id.digest,
            );
            if !leaf_matches {
                return Ok(
                    PublishState::Failed {
                        failure: PublishFailure::Proof(ProofError::BundleFailure),
                    },
                );
            }
            let mut leaves: Vec<LogLeaf> = Vec::new();
            leaves.push(leaf);
            assert(leaves@ =~= seq![leaf]);
            match verify_inclusion(&leaves, &checkpoint, &inclusion) {
                Err(e) => Ok(PublishState::Failed { failure: PublishFailure::Proof(e) }),
                Ok(()) => {
                    match accept(checkpoint, known, consistency.as_ref()) {
                        Err(ce) => Ok(
                            PublishState::Failed { failure: PublishFailure::Checkpoint(ce) },
                        ),
                        Ok(cp) => Ok(PublishState::Committed { record_id, checkpoint: cp }),
                    }
                },
            }
        },
    }
}

/// Consumes one poll response for the in-flight publish.
pub fn on_status(
    current: PublishState,
    status: RecordStatus,
    known: Option<Checkpoint>,
    max_attempts: u64,
) -> (r: Result<PublishState, ClientError>)
    requires
        status matches RecordStatus::Included { checkpoint, .. } ==> checkpoint.tree_length
            < u64::MAX,
    ensures
        on_status_post(r, current, status, known, max_attempts),
{
    match current {
        PublishState::Submitted { entry, record_id } => poll_step(
            entry,
            record_id,
            0,
            status,
            known,
            max_attempts,
        ),
        PublishState::AwaitingInclusion { entry, record_id, attempts } => poll_step(
            entry,
            record_id,
            attempts,
            status,
            known,
            max_attempts,
        ),
        _ => Err(ClientError::NotPublishing),
    }
}

/// The capped exponential backoff before poll `attempts + 1`: doubles from
/// `base_ms`, never above `cap_ms`.
pub open spec fn backoff_spec(attempts: nat, base_ms: u64, cap_ms: u64) -> u64
    decreases attempts,
{
    if attempts == 0 {
        if base_ms > cap_ms {
            cap_ms
        } else {
            base_ms
        }
    } else {
        let p = backoff_spec((attempts - 1) as nat, base_ms, cap_ms);
        if p > cap_ms / 2 {
            cap_ms
        } else {
            (2 * p) as u64
        }
    }
}

/// Computes the bounded exponential backoff, in milliseconds, to wait
/// before the next poll.
pub fn next_backoff(attempts: u64, base_ms: u64, cap_ms: u64) -> (r: u64)
    ensures
        r == backoff_spec(attempts as nat, base_ms, cap_ms),
        r <= cap_ms,
{
    let mut v: u64 = if base_ms > cap_ms {
        cap_ms
    } else {
        base_ms
    };
    let mut i: u64 = 0;
    while i < attempts
        invariant
            i <= attempts,
            v == backoff_spec(i as nat, base_ms, cap_ms),
            v <= cap_ms,
        decreases attempts - i,
    {
        if v > cap_ms / 2 {
            v = cap_ms;
        } else {
            v = 2 * v;
        }
        i = i + 1;
    }
    v
}

/// A registry-reported inclusion whose proof fails verification, or whose
/// checkpoint is not accepted, terminates in `Failed`, never `Committed`.
pub proof fn lemma_bad_proof_never_commits(
    r: Result<PublishState, ClientError>,
    entry: PublishEntry,
    record_id: RecordId,
    attempts: u64,
    checkpoint: Checkpoint,
    leaf: LogLeaf,
    inclusion: InclusionProof,
    consistency: Option<ConsistencyProof>,
    known: Option<Checkpoint>,
    max_attempts: u64,
)
    requires
        poll_post(
            r,
            entry,
            record_id,
            attempts,
            RecordStatus::Included { checkpoint, leaf, inclusion, consistency },
            known,
            max_attempts,
        ),
        !(verify_inclusion_spec(seq![leaf], inclusion.paths@, checkpoint) is Ok && accept_spec(
            checkpoint,
            known,
            cons_path_of(consistency),
        ) is Ok),
    ensures
        !(r matches Ok(s) && s matches PublishState::Committed { .. }),
        r matches Ok(s) ==> s matches PublishState::Failed { .. },
{
}

/// Staging on an initialized log refuses another init, and staging a
/// release before init demands one: the two staging rules of the workflow.
pub proof fn lemma_stage_init_rules(
    r: Result<PublishState, ClientError>,
    current: PublishState,
    info: PackageInfo,
    record: PackageRecord,
    package_id: PackageId,
    log_id: LogId,
)
    requires
        stage_post(r, current, info, record, package_id, log_id),
        !in_flight(current),
        record.operations@.len() > 0,
    ensures
        info.records@.len() > 0 && stages_init(record.operations@) ==> r matches Err(
            ClientError::CannotInitializePackage { .. },
        ),
        info.records@.len() == 0 && !(record.operations@[0] matches PackageOp::Init { .. })
            ==> r matches Err(ClientError::MustInitializePackage { .. }),
{
}

} // verus!
