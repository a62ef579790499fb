//! Tests for log folding, staging rules, and the publish state machine.

use warg_client::api;
use warg_client::checkpoint::{Checkpoint, CheckpointError};
use warg_client::hash::{digest_eq, node_hash, Digest};
use warg_client::proofs::{InclusionProof, LeafPath, ProofError};
use warg_client::publish::{
    next_backoff, on_status, on_submitted, plan_uploads, stage, PublishFailure, PublishState,
    RecordStatus,
};
use warg_client::registry::{KeyId, LogId, LogLeaf, PackageId, RecordId, Version};
use warg_client::state::{
    fold, PackageInfo, PackageOp, PackageRecord, Permission, ValidationError, ValidationStatus,
};
use warg_client::ClientError;

fn d(tag: u8) -> Digest {
    Digest { bytes: [tag; 32] }
}

fn key(tag: u8) -> KeyId {
    KeyId { digest: d(tag) }
}

fn rid(tag: u8) -> RecordId {
    RecordId { digest: d(tag) }
}

fn v(major: u64, minor: u64, patch: u64) -> Version {
    Version { major, minor, patch }
}

fn record(prev: Option<Digest>, signer: KeyId, operations: Vec<PackageOp>) -> PackageRecord {
    PackageRecord { prev, timestamp: 1, signer, operations }
}

fn split_pt(n: usize) -> usize {
    let mut k: usize = 1;
    while 2 * k < n {
        k *= 2;
    }
    k
}

fn root_of(hashes: &[Digest]) -> Digest {
    if hashes.len() == 1 {
        hashes[0]
    } else {
        let k = split_pt(hashes.len());
        node_hash(&root_of(&hashes[..k]), &root_of(&hashes[k..]))
    }
}

fn path_for(hashes: &[Digest], i: usize) -> Vec<Digest> {
    if hashes.len() == 1 {
        Vec::new()
    } else {
        let k = split_pt(hashes.len());
        if i < k {
            let mut p = path_for(&hashes[..k], i);
            p.push(root_of(&hashes[k..]));
            p
        } else {
            let mut p = path_for(&hashes[k..], i - k);
            p.push(root_of(&hashes[..k]));
            p
        }
    }
}

fn init_release_record(owner: KeyId, content: Digest) -> PackageRecord {
    record(
        None,
        owner,
        vec![
            PackageOp::Init { key: owner },
            PackageOp::Release { version: v(1, 0, 0), content },
        ],
    )
}

#[test]
fn fold_init_and_release() {
    let owner = key(9);
    let info = PackageInfo::new();
    let r1 = init_release_record(owner, d(20));
    let folded = fold(&info, &r1, rid(1)).unwrap();
    assert_eq!(folded.records.len(), 1);
    assert!(matches!(folded.status, ValidationStatus::Valid));
    assert_eq!(folded.releases.len(), 1);
    assert_eq!(folded.releases[0].version, v(1, 0, 0));
    assert!(digest_eq(&folded.releases[0].content, &d(20)));
    assert!(!folded.releases[0].yanked);
}

#[test]
fn fold_out_of_chain_order_forks() {
    let owner = key(9);
    let info = PackageInfo::new();
    let folded = fold(&info, &init_release_record(owner, d(20)), rid(1)).unwrap();
    // A record linking past the head (as if one were skipped) is rejected.
    let skipped = record(
        Some(d(77)),
        owner,
        vec![PackageOp::Release { version: v(1, 1, 0), content: d(21) }],
    );
    assert!(matches!(
        fold(&folded, &skipped, rid(3)),
        Err(ValidationError::ForkedChain)
    ));
    // The prior state is preserved: the correct next record still folds.
    let next = record(
        Some(rid(1).digest),
        owner,
        vec![PackageOp::Release { version: v(1, 1, 0), content: d(21) }],
    );
    let folded2 = fold(&folded, &next, rid(2)).unwrap();
    assert_eq!(folded2.records.len(), 2);
    assert_eq!(folded2.releases.len(), 2);
}

#[test]
fn fold_empty_record_rejected() {
    let owner = key(9);
    let info = PackageInfo::new();
    let folded = fold(&info, &init_release_record(owner, d(20)), rid(1)).unwrap();
    let empty = record(Some(rid(1).digest), owner, Vec::new());
    assert!(matches!(fold(&folded, &empty, rid(2)), Err(ValidationError::EmptyLog)));
}

#[test]
fn fold_checks_permissions() {
    let owner = key(9);
    let outsider = key(8);
    let info = PackageInfo::new();
    let folded = fold(&info, &init_release_record(owner, d(20)), rid(1)).unwrap();
    // A key without the release permission cannot release.
    let unauthorized = record(
        Some(rid(1).digest),
        outsider,
        vec![PackageOp::Release { version: v(2, 0, 0), content: d(22) }],
    );
    assert!(matches!(
        fold(&folded, &unauthorized, rid(2)),
        Err(ValidationError::Unauthorized)
    ));
    // After a grant by the init key, the same release folds.
    let grant = record(
        Some(rid(1).digest),
        owner,
        vec![PackageOp::GrantFlat { key: outsider, permission: Permission::Release }],
    );
    let folded2 = fold(&folded, &grant, rid(2)).unwrap();
    let release = record(
        Some(rid(2).digest),
        outsider,
        vec![PackageOp::Release { version: v(2, 0, 0), content: d(22) }],
    );
    let folded3 = fold(&folded2, &release, rid(3)).unwrap();
    assert_eq!(folded3.releases.len(), 2);
    // After a revocation, the outsider is unauthorized again.
    let revoke = record(
        Some(rid(3).digest),
        owner,
        vec![PackageOp::RevokeFlat { key: outsider, permission: Permission::Release }],
    );
    let folded4 = fold(&folded3, &revoke, rid(4)).unwrap();
    let late = record(
        Some(rid(4).digest),
        outsider,
        vec![PackageOp::Release { version: v(3, 0, 0), content: d(23) }],
    );
    assert!(matches!(
        fold(&folded4, &late, rid(5)),
        Err(ValidationError::Unauthorized)
    ));
}

#[test]
fn fold_release_and_yank_semantics() {
    let owner = key(9);
    let info = PackageInfo::new();
    let folded = fold(&info, &init_release_record(owner, d(20)), rid(1)).unwrap();
    // Releasing an already-released version is a no-op: the first content
    // digest stands.
    let again = record(
        Some(rid(1).digest),
        owner,
        vec![PackageOp::Release { version: v(1, 0, 0), content: d(99) }],
    );
    let folded2 = fold(&folded, &again, rid(2)).unwrap();
    assert_eq!(folded2.releases.len(), 1);
    assert!(digest_eq(&folded2.releases[0].content, &d(20)));
    // Yanking marks the release without removing it.
    let yank = record(Some(rid(2).digest), owner, vec![PackageOp::Yank { version: v(1, 0, 0) }]);
    let folded3 = fold(&folded2, &yank, rid(3)).unwrap();
    assert_eq!(folded3.releases.len(), 1);
    assert!(folded3.releases[0].yanked);
    // The lookup sees the yanked release and misses unknown versions.
    let e = folded3.released(v(1, 0, 0)).unwrap();
    assert!(e.yanked);
    assert!(digest_eq(&e.content, &d(20)));
    assert!(folded3.released(v(9, 9, 9)).is_none());
}

#[test]
fn fold_rejects_second_init() {
    let owner = key(9);
    let info = PackageInfo::new();
    let folded = fold(&info, &init_release_record(owner, d(20)), rid(1)).unwrap();
    let reinit = record(Some(rid(1).digest), owner, vec![PackageOp::Init { key: owner }]);
    assert!(matches!(
        fold(&folded, &reinit, rid(2)),
        Err(ValidationError::Unauthorized)
    ));
}

fn pkg() -> PackageId {
    String::from("example:pkg")
}

fn log_id() -> LogId {
    LogId { digest: d(40) }
}

#[test]
fn stage_rules() {
    let owner = key(9);
    let empty = PackageInfo::new();
    // Staging a release before init demands initialization.
    let release_only = record(
        None,
        owner,
        vec![PackageOp::Release { version: v(1, 0, 0), content: d(20) }],
    );
    assert!(matches!(
        stage(&PublishState::Idle, pkg(), log_id(), &empty, release_only),
        Err(ClientError::MustInitializePackage { .. })
    ));
    // Staging nothing has nothing to publish.
    let nothing = record(None, owner, Vec::new());
    assert!(matches!(
        stage(&PublishState::Idle, pkg(), log_id(), &empty, nothing),
        Err(ClientError::NothingToPublish { .. })
    ));
    // Staging an init on an already-initialized log is refused.
    let folded = fold(&empty, &init_release_record(owner, d(20)), rid(1)).unwrap();
    let reinit = record(Some(rid(1).digest), owner, vec![PackageOp::Init { key: owner }]);
    assert!(matches!(
        stage(&PublishState::Idle, pkg(), log_id(), &folded, reinit),
        Err(ClientError::CannotInitializePackage { .. })
    ));
    // A second publish may not start while one is in flight.
    let first = stage(
        &PublishState::Idle,
        pkg(),
        log_id(),
        &empty,
        init_release_record(owner, d(20)),
    )
    .unwrap();
    assert!(matches!(
        stage(&first, pkg(), log_id(), &empty, init_release_record(owner, d(21))),
        Err(ClientError::PublishInProgress { .. })
    ));
}

#[test]
fn plan_uploads_rules() {
    let owner = key(9);
    let empty = PackageInfo::new();
    let staged = stage(
        &PublishState::Idle,
        pkg(),
        log_id(),
        &empty,
        init_release_record(owner, d(20)),
    )
    .unwrap();
    // Locally missing content is named.
    let r = plan_uploads(staged, &vec![d(20)], &vec![d(1), d(2)]);
    match r {
        Err(ClientError::ContentNotFound { digest }) => assert!(digest_eq(&digest, &d(20))),
        _ => panic!("expected ContentNotFound"),
    }
    // Available content is planned for upload.
    let staged = stage(
        &PublishState::Idle,
        pkg(),
        log_id(),
        &empty,
        init_release_record(owner, d(20)),
    )
    .unwrap();
    let uploading = plan_uploads(staged, &vec![d(20)], &vec![d(20)]).unwrap();
    match &uploading {
        PublishState::ContentUploading { pending, .. } => {
            assert_eq!(pending.len(), 1);
            assert!(digest_eq(&pending[0], &d(20)));
        },
        _ => panic!("expected ContentUploading"),
    }
    // A second missing-content report after uploading is an error.
    assert!(matches!(
        plan_uploads(uploading, &vec![d(20)], &vec![d(20)]),
        Err(ClientError::PackageMissingContent)
    ));
    // Without a publish in flight there is nothing to plan for.
    assert!(matches!(
        plan_uploads(PublishState::Idle, &vec![], &vec![]),
        Err(ClientError::NotPublishing)
    ));
}

#[test]
fn publish_bad_proof_never_commits() {
    let owner = key(9);
    let empty = PackageInfo::new();
    let staged = stage(
        &PublishState::Idle,
        pkg(),
        log_id(),
        &empty,
        init_release_record(owner, d(20)),
    )
    .unwrap();
    let submitted = on_submitted(staged, rid(1)).unwrap();
    let leaf = LogLeaf { log_id: log_id(), record_id: rid(1) };
    // A structurally plausible proof that recombines to the wrong root.
    let status = RecordStatus::Included {
        checkpoint: Checkpoint { root: d(50), tree_length: 2, timestamp: 5 },
        leaf,
        inclusion: InclusionProof { paths: vec![LeafPath { index: 0, hashes: vec![d(3)] }] },
        consistency: None,
    };
    let end = on_status(submitted, status, None, 10).unwrap();
    assert!(!matches!(end, PublishState::Committed { .. }));
    assert!(matches!(
        end,
        PublishState::Failed { failure: PublishFailure::Proof(ProofError::IncorrectProof) }
    ));
}

#[test]
fn publish_end_to_end_commits() {
    let owner = key(9);
    let empty = PackageInfo::new();
    // Stage the init of the package together with release 1.0.0 -> d(20).
    let staged_record = init_release_record(owner, d(20));
    let staged = stage(&PublishState::Idle, pkg(), log_id(), &empty, staged_record).unwrap();
    // The registry reports the release content missing; it is available
    // locally, so it is planned for upload.
    let uploading = plan_uploads(staged, &vec![d(20)], &vec![d(20)]).unwrap();
    // Submission assigns the record its identity.
    let record_id = rid(1);
    let submitted = on_submitted(uploading, record_id).unwrap();
    // The first poll is still pending.
    let waiting = on_status(submitted, RecordStatus::Pending, None, 10).unwrap();
    assert!(matches!(waiting, PublishState::AwaitingInclusion { attempts: 1, .. }));
    // The registry then reports inclusion at a checkpoint of length 5.
    let leaf = LogLeaf { log_id: log_id(), record_id };
    let hashes = vec![d(1), d(2), d(3), d(4), leaf.leaf_digest()];
    let checkpoint = Checkpoint { root: root_of(&hashes), tree_length: 5, timestamp: 500 };
    let status = RecordStatus::Included {
        checkpoint,
        leaf,
        inclusion: InclusionProof { paths: vec![LeafPath { index: 4, hashes: path_for(&hashes, 4) }] },
        consistency: None,
    };
    let end = on_status(waiting, status, None, 10).unwrap();
    match &end {
        PublishState::Committed { record_id: rid2, checkpoint: cp2 } => {
            assert!(digest_eq(&rid2.digest, &record_id.digest));
            // The checkpoint tracker now holds length 5.
            assert_eq!(cp2.tree_length, 5);
        },
        _ => panic!("expected Committed"),
    }
    // Folding the included record materializes the release.
    let record2 = init_release_record(owner, d(20));
    let folded = fold(&empty, &record2, record_id).unwrap();
    assert_eq!(folded.releases.len(), 1);
    assert_eq!(folded.releases[0].version, v(1, 0, 0));
    assert!(digest_eq(&folded.releases[0].content, &d(20)));
}

#[test]
fn publish_rejected_is_terminal() {
    let owner = key(9);
    let empty = PackageInfo::new();
    let info = fold(&empty, &init_release_record(owner, d(20)), rid(1)).unwrap();
    let records_before = info.records.len();
    let next = record(
        Some(rid(1).digest),
        owner,
        vec![PackageOp::Release { version: v(1, 0, 0), content: d(21) }],
    );
    let staged = stage(&PublishState::Idle, pkg(), log_id(), &info, next).unwrap();
    let submitted = on_submitted(staged, rid(2)).unwrap();
    let status = RecordStatus::Rejected { reason: String::from("version already published") };
    let end = on_status(submitted, status, None, 10).unwrap();
    match &end {
        PublishState::Rejected { reason, .. } => {
            assert_eq!(reason.as_str(), "version already published");
        },
        _ => panic!("expected Rejected"),
    }
    // The staged entry is gone and the local log state is unchanged.
    assert!(!matches!(end, PublishState::Staged { .. }));
    assert_eq!(info.records.len(), records_before);
    assert_eq!(info.releases.len(), 1);
}

#[test]
fn publish_polling_times_out() {
    let owner = key(9);
    let empty = PackageInfo::new();
    let staged = stage(
        &PublishState::Idle,
        pkg(),
        log_id(),
        &empty,
        init_release_record(owner, d(20)),
    )
    .unwrap();
    let mut state = on_submitted(staged, rid(1)).unwrap();
    for _ in 0..9 {
        state = on_status(state, RecordStatus::Pending, None, 3).unwrap();
        if matches!(state, PublishState::Failed { .. }) {
            break;
        }
    }
    assert!(matches!(
        state,
        PublishState::Failed { failure: PublishFailure::Timeout }
    ));
}

#[test]
fn checkpoint_failure_fails_publish() {
    let owner = key(9);
    let empty = PackageInfo::new();
    let staged = stage(
        &PublishState::Idle,
        pkg(),
        log_id(),
        &empty,
        init_release_record(owner, d(20)),
    )
    .unwrap();
    let submitted = on_submitted(staged, rid(1)).unwrap();
    let leaf = LogLeaf { log_id: log_id(), record_id: rid(1) };
    let hashes = vec![d(1), leaf.leaf_digest()];
    let checkpoint = Checkpoint { root: root_of(&hashes), tree_length: 2, timestamp: 5 };
    let status = RecordStatus::Included {
        checkpoint,
        leaf,
        inclusion: InclusionProof { paths: vec![LeafPath { index: 1, hashes: path_for(&hashes, 1) }] },
        consistency: None,
    };
    // The known checkpoint is longer: accepting the reported one is a
    // rollback, so the publish fails instead of committing.
    let known = Checkpoint { root: d(60), tree_length: 9, timestamp: 4 };
    let end = on_status(submitted, status, Some(known), 10).unwrap();
    assert!(matches!(
        end,
        PublishState::Failed { failure: PublishFailure::Checkpoint(CheckpointError::Rollback) }
    ));
}

#[test]
fn backoff_doubles_to_cap() {
    assert_eq!(next_backoff(0, 100, 1000), 100);
    assert_eq!(next_backoff(1, 100, 1000), 200);
    assert_eq!(next_backoff(2, 100, 1000), 400);
    assert_eq!(next_backoff(3, 100, 1000), 800);
    assert_eq!(next_backoff(4, 100, 1000), 1000);
    assert_eq!(next_backoff(50, 100, 1000), 1000);
    assert_eq!(next_backoff(3, 0, 1000), 0);
}

#[test]
fn translate_log_not_found_names_package() {
    let known = vec![(log_id(), pkg()), (LogId { digest: d(41) }, String::from("other:pkg"))];
    let e = api::ClientError::Fetch(api::FetchError::LogNotFound { log_id: log_id() });
    match ClientError::translate_log_not_found(e, &known) {
        ClientError::PackageDoesNotExist { id } => assert_eq!(id.as_str(), "example:pkg"),
        _ => panic!("expected PackageDoesNotExist"),
    }
    // An unknown log id passes the error through.
    let e2 = api::ClientError::Package(api::PackageError::LogNotFound {
        log_id: LogId { digest: d(99) },
    });
    assert!(matches!(
        ClientError::translate_log_not_found(e2, &known),
        ClientError::Api(_)
    ));
    // Other errors pass through untouched.
    let e3 = api::ClientError::Message { message: String::from("boom") };
    assert!(matches!(
        ClientError::translate_log_not_found(e3, &known),
        ClientError::Api(api::ClientError::Message { .. })
    ));
}
