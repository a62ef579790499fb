//! The log record model and the local log state: typed operations, signed
//! hash-chained records, and the per-package materialized view built by
//! folding verified records in strict chain order.

use vstd::prelude::*;
use crate::hash::{Digest, digest_eq};
use crate::registry::{KeyId, RecordId, Version};

verus! {

/// A capability a signing key may hold on a package log.
#[derive(Clone, Copy, Debug, PartialEq, Eq, Structural)]
pub enum Permission {
    /// May publish releases.
    Release,
    /// May yank releases.
    Yank,
}

/// One typed operation carried by a package record.
#[derive(Clone, Copy, Debug)]
pub enum PackageOp {
    /// Starts the log; names the initial (self-signing) key. Valid only as
    /// the first operation of a log's first record.
    Init {
        /// The key that owns the new log.
        key: KeyId,
    },
    /// Grants a permission to a key.
    GrantFlat {
        /// The key receiving the permission.
        key: KeyId,
        /// The permission granted.
        permission: Permission,
    },
    /// Revokes a permission from a key.
    RevokeFlat {
        /// The key losing the permission.
        key: KeyId,
        /// The permission revoked.
        permission: Permission,
    },
    /// Releases a version with the given content digest.
    Release {
        /// The version being released.
        version: Version,
        /// The digest of the released content.
        content: Digest,
    },
    /// Yanks a previously released version.
    Yank {
        /// The version being yanked.
        version: Version,
    },
}

/// A signed, hash-chained entry in a package log.
#[derive(Debug)]
pub struct PackageRecord {
    /// The digest of the previous record, or `None` for a log's first
    /// record.
    pub prev: Option<Digest>,
    /// The record's timestamp, in seconds.
    pub timestamp: u64,
    /// The key that signed the record.
    pub signer: KeyId,
    /// The record's operations, applied in order.
    pub operations: Vec<PackageOp>,
}

/// A per-record folding failure: the offending record is rejected and the
/// prior accepted state is preserved.
#[derive(Clone, Copy, Debug, PartialEq, Eq, Structural)]
pub enum ValidationError {
    /// The record's previous-digest link does not match the current head.
    ForkedChain,
    /// The record's signer lacked a required permission, or the record
    /// (re)initializes a log out of place.
    Unauthorized,
    /// The record carries no operations.
    EmptyLog,
}

/// The validation status of a local log view.
#[derive(Clone, Copy, Debug, PartialEq, Eq, Structural)]
pub enum ValidationStatus {
    /// No record has been folded yet.
    Unvalidated,
    /// Every folded record verified.
    Valid,
    /// A folded record was rejected.
    Invalid,
}

/// One released version and its content digest.
#[derive(Clone, Copy, Debug)]
pub struct ReleaseState {
    /// The released version.
    pub version: Version,
    /// The digest of the release's content.
    pub content: Digest,
    /// Whether the release has been yanked.
    pub yanked: bool,
}

/// One permission grant, kept with an active flag so revocation preserves
/// the grant's history.
#[derive(Clone, Copy, Debug)]
pub struct PermissionEntry {
    /// The key the permission was granted to.
    pub key: KeyId,
    /// The permission granted.
    pub permission: Permission,
    /// Whether the grant is currently in force.
    pub active: bool,
}

/// The materialized, verified view of one package log: the accepted record
/// identities in order, the released versions, and the permission set.
#[derive(Debug)]
pub struct PackageInfo {
    /// The key named by the log's init record, if the log is initialized.
    /// The init key holds every permission and cannot be revoked.
    pub init_key: Option<KeyId>,
    /// The identities of the accepted records, in chain order.
    pub records: Vec<RecordId>,
    /// The released versions.
    pub releases: Vec<ReleaseState>,
    /// The permission grants.
    pub permissions: Vec<PermissionEntry>,
    /// The log's validation status.
    pub status: ValidationStatus,
}

/// The digest of the last accepted record, or `None` for an empty log.
pub open spec fn head_of(info: PackageInfo) -> Option<Seq<u8>> {
    if info.records@.len() == 0 {
        None
    } else {
        Some(info.records@.last().digest@)
    }
}

/// Whether `key` holds `perm`: the init key holds every permission; any
/// other key holds exactly its active grants.
pub open spec fn has_permission(info: PackageInfo, key: KeyId, perm: Permission) -> bool {
    (info.init_key matches Some(k) && k.digest@ == key.digest@) || exists|i: int|
        0 <= i < info.permissions@.len() && (#[trigger] info.permissions@[i]).key.digest@
            == key.digest@ && info.permissions@[i].permission == perm
            && info.permissions@[i].active
}

/// Whether an operation is authorized for `signer` against the current
/// (previous-record) state. `Init` is never authorized once a log exists.
pub open spec fn op_authorized(info: PackageInfo, signer: KeyId, op: PackageOp) -> bool {
    match op {
        PackageOp::Init { .. } => false,
        PackageOp::GrantFlat { permission, .. } => has_permission(info, signer, permission),
        PackageOp::RevokeFlat { permission, .. } => has_permission(info, signer, permission),
        PackageOp::Release { .. } => has_permission(info, signer, Permission::Release),
        PackageOp::Yank { .. } => has_permission(info, signer, Permission::Yank),
    }
}

/// Whether the record's previous-digest link matches the current head.
pub open spec fn chain_ok(info: PackageInfo, record: PackageRecord) -> bool {
    match record.prev {
        None => info.records@.len() == 0,
        Some(d) => info.records@.len() > 0 && d@ == info.records@.last().digest@,
    }
}

/// Whether a record may start a log: its first operation is an `Init`
/// signed by the named key itself, and no later operation re-initializes.
pub open spec fn first_record_ok(record: PackageRecord) -> bool {
    &&& record.operations@[0] matches PackageOp::Init { key }
        && key.digest@ == record.signer.digest@
    &&& forall|j: int|
        1 <= j < record.operations@.len() ==> !((#[trigger] record.operations@[j])
            matches PackageOp::Init { .. })
}

/// Whether the record's signer may perform all of its operations, judged
/// against the state as of the previous record.
pub open spec fn auth_ok(info: PackageInfo, record: PackageRecord) -> bool {
    if info.records@.len() == 0 {
        first_record_ok(record)
    } else {
        forall|j: int|
            0 <= j < record.operations@.len() ==> op_authorized(
                info,
                record.signer,
                #[trigger] record.operations@[j],
            )
    }
}

/// The error folding a record returns, or `None` when the fold succeeds:
/// the chain link is checked first, then that the record carries
/// operations, then authorization.
pub open spec fn fold_err(info: PackageInfo, record: PackageRecord) -> Option<ValidationError> {
    if !chain_ok(info, record) {
        Some(ValidationError::ForkedChain)
    } else if record.operations@.len() == 0 {
        Some(ValidationError::EmptyLog)
    } else if !auth_ok(info, record) {
        Some(ValidationError::Unauthorized)
    } else {
        None
    }
}

/// Applies one operation to the released-version list: a release of an
/// already-released version is a no-op; a yank marks every entry of that
/// version; other operations leave releases unchanged.
pub open spec fn apply_release(rels: Seq<ReleaseState>, op: PackageOp) -> Seq<ReleaseState> {
    match op {
        PackageOp::Release { version, content } => {
            if exists|i: int| 0 <= i < rels.len() && (#[trigger] rels[i]).version == version {
                rels
            } else {
                rels.push(ReleaseState { version, content, yanked: false })
            }
        },
        PackageOp::Yank { version } => rels.map_values(
            |e: ReleaseState|
                if e.version == version {
                    ReleaseState { version: e.version, content: e.content, yanked: true }
                } else {
                    e
                },
        ),
        _ => rels,
    }
}

/// Applies one operation to the permission grants: a grant already present
/// is re-activated (a grant already held is a no-op); a new grant is
/// appended; a revocation deactivates every matching grant.
pub open spec fn apply_perms(perms: Seq<PermissionEntry>, op: PackageOp) -> Seq<PermissionEntry> {
    match op {
        PackageOp::GrantFlat { key, permission } => {
            if exists|i: int|
                0 <= i < perms.len() && (#[trigger] perms[i]).key.digest@ == key.digest@
                    && perms[i].permission == permission {
                perms.map_values(
                    |e: PermissionEntry|
                        if e.key.digest@ == key.digest@ && e.permission == permission {
                            PermissionEntry { key: e.key, permission: e.permission, active: true }
                        } else {
                            e
                        },
                )
            } else {
                perms.push(PermissionEntry { key, permission, active: true })
            }
        },
        PackageOp::RevokeFlat { key, permission } => perms.map_values(
            |e: PermissionEntry|
                if e.key.digest@ == key.digest@ && e.permission == permission {
                    PermissionEntry { key: e.key, permission: e.permission, active: false }
                } else {
                    e
                },
        ),
        _ => perms,
    }
}

/// Applies the operations from index `i` onward, in order.
pub open spec fn apply_ops_from(
    rels: Seq<ReleaseState>,
    perms: Seq<PermissionEntry>,
    ops: Seq<PackageOp>,
    i: nat,
) -> (Seq<ReleaseState>, Seq<PermissionEntry>)
    decreases ops.len() - i,
{
    if i >= ops.len() {
        (rels, perms)
    } else {
        apply_ops_from(apply_release(rels, ops[i as int]), apply_perms(perms, ops[i as int]), ops, i + 1)
    }
}

/// Released versions are pairwise distinct.
pub open spec fn releases_distinct(rels: Seq<ReleaseState>) -> bool {
    forall|i: int, j: int|
        0 <= i < j < rels.len() ==> (#[trigger] rels[i]).version != (#[trigger] rels[j]).version
}

/// Permission grants are pairwise distinct in (key, permission).
pub open spec fn perms_distinct(perms: Seq<PermissionEntry>) -> bool {
    forall|i: int, j: int|
        0 <= i < j < perms.len() ==> !((#[trigger] perms[i]).key.digest@
            == (#[trigger] perms[j]).key.digest@ && perms[i].permission == perms[j].permission)
}

/// The well-formedness of a log view: releases and grants are free of
/// duplicates, and exactly an initialized log knows its init key.
pub open spec fn wf(info: PackageInfo) -> bool {
    &&& releases_distinct(info.releases@)
    &&& perms_distinct(info.permissions@)
    &&& (info.init_key is Some <==> info.records@.len() > 0)
}

/// Applying one operation preserves the distinctness of releases and
/// grants: a release or grant is appended only when no matching entry
/// exists, and the rewriting operations keep every key field unchanged.
pub proof fn lemma_apply_op_wf(rels: Seq<ReleaseState>, perms: Seq<PermissionEntry>, op: PackageOp)
    requires
        releases_distinct(rels),
        perms_distinct(perms),
    ensures
        releases_distinct(apply_release(rels, op)),
        perms_distinct(apply_perms(perms, op)),
{
    let out_r = apply_release(rels, op);
    let out_p = apply_perms(perms, op);
    match op {
        PackageOp::Release { version, content } => {
            if !(exists|i: int| 0 <= i < rels.len() && (#[trigger] rels[i]).version == version) {
                assert forall|i: int, j: int| 0 <= i < j < out_r.len() implies (
                #[trigger] out_r[i]).version != (#[trigger] out_r[j]).version by {
                    if j == rels.len() {
                        assert(rels[i].version != version);
                    }
                }
            }
        },
        PackageOp::Yank { version } => {
            assert forall|i: int, j: int| 0 <= i < j < out_r.len() implies (
            #[trigger] out_r[i]).version != (#[trigger] out_r[j]).version by {
                assert(out_r[i].version == rels[i].version);
                assert(out_r[j].version == rels[j].version);
            }
        },
        PackageOp::GrantFlat { key, permission } => {
            if exists|i: int|
                0 <= i < perms.len() && (#[trigger] perms[i]).key.digest@ == key.digest@
                    && perms[i].permission == permission {
                assert forall|i: int, j: int| 0 <= i < j < out_p.len() implies !((
                #[trigger] out_p[i]).key.digest@ == (#[trigger] out_p[j]).key.digest@
                    && out_p[i].permission == out_p[j].permission) by {
                    assert(out_p[i].key == perms[i].key && out_p[i].permission
                        == perms[i].permission);
                    assert(out_p[j].key == perms[j].key && out_p[j].permission
                        == perms[j].permission);
                }
            } else {
                assert forall|i: int, j: int| 0 <= i < j < out_p.len() implies !((
                #[trigger] out_p[i]).key.digest@ == (#[trigger] out_p[j]).key.digest@
                    && out_p[i].permission == out_p[j].permission) by {
                    if j == perms.len() {
                        assert(!(perms[i].key.digest@ == key.digest@ && perms[i].permission
                            == permission));
                    }
                }
            }
        },
        PackageOp::RevokeFlat { key, permission } => {
            assert forall|i: int, j: int| 0 <= i < j < out_p.len() implies !((
            #[trigger] out_p[i]).key.digest@ == (#[trigger] out_p[j]).key.digest@
                && out_p[i].permission == out_p[j].permission) by {
                assert(out_p[i].key == perms[i].key && out_p[i].permission == perms[i].permission);
                assert(out_p[j].key == perms[j].key && out_p[j].permission == perms[j].permission);
            }
        },
        PackageOp::Init { .. } => {},
    }
}

/// Applying a record's operations in order preserves distinctness.
pub proof fn lemma_apply_ops_wf(
    rels: Seq<ReleaseState>,
    perms: Seq<PermissionEntry>,
    ops: Seq<PackageOp>,
    i: nat,
)
    requires
        releases_distinct(rels),
        perms_distinct(perms),
    ensures
        releases_distinct(apply_ops_from(rels, perms, ops, i).0),
        perms_distinct(apply_ops_from(rels, perms, ops, i).1),
    decreases ops.len() - i,
{
    if i < ops.len() {
        lemma_apply_op_wf(rels, perms, ops[i as int]);
        lemma_apply_ops_wf(
            apply_release(rels, ops[i as int]),
            apply_perms(perms, ops[i as int]),
            ops,
            i + 1,
        );
    }
}

impl PackageInfo {
    /// The empty, unvalidated view a package starts from.
    pub fn new() -> (r: PackageInfo)
        ensures
            r.init_key is None,
            r.records@.len() == 0,
            r.releases@.len() == 0,
            r.permissions@.len() == 0,
            r.status == ValidationStatus::Unvalidated,
            wf(r),
    {
        PackageInfo {
            init_key: None,
            records: Vec::new(),
            releases: Vec::new(),
            permissions: Vec::new(),
            status: ValidationStatus::Unvalidated,
        }
    }

    /// The digest of the last accepted record, or `None` for an empty log.
    pub fn head(&self) -> (r: Option<Digest>)
        ensures
            match r {
                None => head_of(*self) is None,
                Some(d) => head_of(*self) == Some(d@),
            },
    {
        if self.records.len() == 0 {
            None
        } else {
            Some(self.records[self.records.len() - 1].digest)
        }
    }

    /// Looks up a released version; with a well-formed view the entry is
    /// unique.
    pub fn released(&self, version: Version) -> (r: Option<ReleaseState>)
        ensures
            r is Some <==> exists|i: int|
                0 <= i < self.releases@.len() && (#[trigger] self.releases@[i]).version == version,
            r matches Some(e) ==> exists|i: int|
                0 <= i < self.releases@.len() && (#[trigger] self.releases@[i]) == e && e.version
                    == version,
    {
        let mut i: usize = 0;
        while i < self.releases.len()
            invariant
                i <= self.releases@.len(),
                forall|j: int|
                    0 <= j < i ==> (#[trigger] self.releases@[j]).version != version,
            decreases self.releases@.len() - i,
        {
            if self.releases[i].version == version {
                return Some(self.releases[i]);
            }
            i = i + 1;
        }
        None
    }
}

fn copy_vec<T: Copy>(v: &Vec<T>) -> (r: Vec<T>)
    ensures
        r@ == v@,
{
    let mut r: Vec<T> = Vec::new();
    let mut i: usize = 0;
    while i < v.len()
        invariant
            i <= v@.len(),
            r@ == v@.subrange(0, i as int),
        decreases v@.len() - i,
    {
        r.push(v[i]);
        assert(r@ =~= v@.subrange(0, i + 1 as int));
        i = i + 1;
    }
    assert(v@.subrange(0, v@.len() as int) =~= v@);
    r
}

/// Whether `key` holds `perm` in this view.
pub fn has_permission_exec(info: &PackageInfo, key: &KeyId, perm: Permission) -> (r: bool)
    ensures
        r == has_permission(*info, *key, perm),
{
    match &info.init_key {
        Some(k) => {
            if k.equals(key) {
                return true;
            }
        },
        None => {},
    }
    let mut i: usize = 0;
    while i < info.permissions.len()
        invariant
            i <= info.permissions@.len(),
            forall|j: int|
                0 <= j < i ==> !((#[trigger] info.permissions@[j]).key.digest@ == key.digest@
                    && info.permissions@[j].permission == perm && info.permissions@[j].active),
        decreases info.permissions@.len() - i,
    {
        let e = info.permissions[i];
        if e.active && e.permission == perm && e.key.equals(key) {
            return true;
        }
        i = i + 1;
    }
    false
}

fn apply_op_exec(rels: Vec<ReleaseState>, perms: Vec<PermissionEntry>, op: &PackageOp) -> (r: (
    Vec<ReleaseState>,
    Vec<PermissionEntry>,
))
    ensures
        r.0@ == apply_release(rels@, *op),
        r.1@ == apply_perms(perms@, *op),
{
    match op {
        PackageOp::Release { version, content } => {
            let mut found = false;
            let mut i: usize = 0;
            while i < rels.len()
                invariant
                    i <= rels@.len(),
                    found == exists|j: int|
                        0 <= j < i && (#[trigger] rels@[j]).version == *version,
                decreases rels@.len() - i,
            {
                if rels[i].version == *version {
                    found = true;
                }
                i = i + 1;
            }
            if found {
                (rels, perms)
            } else {
                let mut rels = rels;
                rels.push(ReleaseState { version: *version, content: *content, yanked: false });
                (rels, perms)
            }
        },
        PackageOp::Yank { version } => {
            let mut out: Vec<ReleaseState> = Vec::new();
            let mut i: usize = 0;
            while i < rels.len()
                invariant
                    i <= rels@.len(),
                    out@.len() == i,
                    forall|j: int|
                        0 <= j < i ==> #[trigger] out@[j] == (if rels@[j].version == *version {
                            ReleaseState {
                                version: rels@[j].version,
                                content: rels@[j].content,
                                yanked: true,
                            }
                        } else {
                            rels@[j]
                        }),
                decreases rels@.len() - i,
            {
                let e = rels[i];
                if e.version == *version {
                    out.push(ReleaseState { version: e.version, content: e.content, yanked: true });
                } else {
                    out.push(e);
                }
                i = i + 1;
            }
            assert(out@ =~= apply_release(rels@, *op));
            (out, perms)
        },
        PackageOp::GrantFlat { key, permission } => {
            let mut found = false;
            let mut i: usize = 0;
            while i < perms.len()
                invariant
                    i <= perms@.len(),
                    found == exists|j: int|
                        0 <= j < i && (#[trigger] perms@[j]).key.digest@ == key.digest@
                            && perms@[j].permission == *permission,
                decreases perms@.len() - i,
            {
                let e = perms[i];
                if e.permission == *permission && e.key.equals(key) {
                    found = true;
                }
                i = i + 1;
            }
            if found {
                let mut out: Vec<PermissionEntry> = Vec::new();
                let mut i: usize = 0;
                while i < perms.len()
                    invariant
                        i <= perms@.len(),
                        out@.len() == i,
                        forall|j: int|
                            0 <= j < i ==> #[trigger] out@[j] == (if perms@[j].key.digest@
                                == key.digest@ && perms@[j].permission == *permission {
                                PermissionEntry {
                                    key: perms@[j].key,
                                    permission: perms@[j].permission,
                                    active: true,
                                }
                            } else {
                                perms@[j]
                            }),
                    decreases perms@.len() - i,
                {
                    let e = perms[i];
                    if e.permission == *permission && e.key.equals(key) {
                        out.push(
                            PermissionEntry {
                                key: e.key,
                                permission: e.permission,
                                active: true,
                            },
                        );
                    } else {
                        out.push(e);
                    }
                    i = i + 1;
                }
                assert(out@ =~= apply_perms(perms@, *op));
                (rels, out)
            } else {
                let mut perms = perms;
                perms.push(PermissionEntry { key: *key, permission: *permission, active: true });
                (rels, perms)
            }
        },
        PackageOp::RevokeFlat { key, permission } => {
            let mut out: Vec<PermissionEntry> = Vec::new();
            let mut i: usize = 0;
            while i < perms.len()
                invariant
                    i <= perms@.len(),
                    out@.len() == i,
                    forall|j: int|
                        0 <= j < i ==> #[trigger] out@[j] == (if perms@[j].key.digest@
                            == key.digest@ && perms@[j].permission == *permission {
                            PermissionEntry {
                                key: perms@[j].key,
                                permission: perms@[j].permission,
                                active: false,
                            }
                        } else {
                            perms@[j]
                        }),
                decreases perms@.len() - i,
            {
                let e = perms[i];
                if e.permission == *permission && e.key.equals(key) {
                    out.push(
                        PermissionEntry { key: e.key, permission: e.permission, active: false },
                    );
                } else {
                    out.push(e);
                }
                i = i + 1;
            }
            assert(out@ =~= apply_perms(perms@, *op));
            (rels, out)
        },
        PackageOp::Init { .. } => (rels, perms),
    }
}

fn apply_ops_exec(
    rels: Vec<ReleaseState>,
    perms: Vec<PermissionEntry>,
    ops: &Vec<PackageOp>,
    i: usize,
) -> (r: (Vec<ReleaseState>, Vec<PermissionEntry>))
    requires
        i <= ops@.len(),
    ensures
        r.0@ == apply_ops_from(rels@, perms@, ops@, i as nat).0,
        r.1@ == apply_ops_from(rels@, perms@, ops@, i as nat).1,
    decreases ops@.len() - i,
{
    if i == ops.len() {
        (rels, perms)
    } else {
        let op = ops[i];
        let (rels, perms) = apply_op_exec(rels, perms, &op);
        apply_ops_exec(rels, perms, ops, i + 1)
    }
}

/// Folds one record into the log view: verifies the chain link against the
/// current head and the signer's permissions against the previous state,
/// then applies the operations. Produces a new value and never mutates the
/// prior view, so earlier accepted history survives a rejection.
pub fn fold(info: &PackageInfo, record: &PackageRecord, record_id: RecordId) -> (r: Result<
    PackageInfo,
    ValidationError,
>)
    ensures
        match r {
            Err(e) => fold_err(*info, *record) == Some(e),
            Ok(new) => {
                &&& fold_err(*info, *record) is None
                &&& new.records@ == info.records@.push(record_id)
                &&& new.releases@ == apply_ops_from(
                    info.releases@,
                    info.permissions@,
                    record.operations@,
                    0,
                ).0
                &&& new.permissions@ == apply_ops_from(
                    info.releases@,
                    info.permissions@,
                    record.operations@,
                    0,
                ).1
                &&& new.status == ValidationStatus::Valid
                &&& (info.records@.len() == 0 ==> new.init_key == Some(record.signer))
                &&& (info.records@.len() > 0 ==> new.init_key == info.init_key)
                &&& (wf(*info) ==> wf(new))
            },
        },
{
    let chain_good: bool = match &record.prev {
        None => info.records.len() == 0,
        Some(p) => match self_head(info) {
            None => false,
            Some(h) => digest_eq(p, &h),
        },
    };
    assert(chain_good == chain_ok(*info, *record));
    if !chain_good {
        return Err(ValidationError::ForkedChain);
    }
    if record.operations.len() == 0 {
        return Err(ValidationError::EmptyLog);
    }
    if info.records.len() == 0 {
        let init_ok: bool = match &record.operations[0] {
            PackageOp::Init { key } => key.equals(&record.signer),
            _ => false,
        };
        if !init_ok {
            return Err(ValidationError::Unauthorized);
        }
        let mut j: usize = 1;
        while j < record.operations.len()
            invariant
                1 <= j <= record.operations@.len(),
                chain_ok(*info, *record),
                record.operations@.len() > 0,
                info.records@.len() == 0,
                forall|j2: int|
                    1 <= j2 < j ==> !((#[trigger] record.operations@[j2]) matches PackageOp::Init {
                        ..
                    }),
            decreases record.operations@.len() - j,
        {
            match &record.operations[j] {
                PackageOp::Init { .. } => {
                    assert(record.operations@[j as int] matches PackageOp::Init { .. });
                    assert(!first_record_ok(*record));
                    return Err(ValidationError::Unauthorized);
                },
                _ => {},
            }
            j = j + 1;
        }
    } else {
        let mut j: usize = 0;
        while j < record.operations.len()
            invariant
                j <= record.operations@.len(),
                chain_ok(*info, *record),
                record.operations@.len() > 0,
                info.records@.len() > 0,
                forall|j2: int|
                    0 <= j2 < j ==> op_authorized(
                        *info,
                        record.signer,
                        #[trigger] record.operations@[j2],
                    ),
            decreases record.operations@.len() - j,
        {
            let authorized: bool = match &record.operations[j] {
                PackageOp::Init { .. } => false,
                PackageOp::GrantFlat { permission, .. } => has_permission_exec(
                    info,
                    &record.signer,
                    *permission,
                ),
                PackageOp::RevokeFlat { permission, .. } => has_permission_exec(
                    info,
                    &record.signer,
                    *permission,
                ),
                PackageOp::Release { .. } => has_permission_exec(
                    info,
                    &record.signer,
                    Permission::Release,
                ),
                PackageOp::Yank { .. } => has_permission_exec(
                    info,
                    &record.signer,
                    Permission::Yank,
                ),
            };
            if !authorized {
                assert(!op_authorized(*info, record.signer, record.operations@[j as int]));
                assert(!auth_ok(*info, *record));
                return Err(ValidationError::Unauthorized);
            }
            j = j + 1;
        }
    }
    proof {
        if releases_distinct(info.releases@) && perms_distinct(info.permissions@) {
            lemma_apply_ops_wf(info.releases@, info.permissions@, record.operations@, 0);
        }
    }
    let rels = copy_vec(&info.releases);
    let perms = copy_vec(&info.permissions);
    let (new_rels, new_perms) = apply_ops_exec(rels, perms, &record.operations, 0);
    let mut new_records = copy_vec(&info.records);
    new_records.push(record_id);
    let new_init_key: Option<KeyId> = if info.records.len() == 0 {
        Some(record.signer)
    } else {
        match &info.init_key {
            Some(k) => Some(*k),
            None => None,
        }
    };
    Ok(
        PackageInfo {
            init_key: new_init_key,
            records: new_records,
            releases: new_rels,
            permissions: new_perms,
            status: ValidationStatus::Valid,
        },
    )
}

fn self_head(info: &PackageInfo) -> (r: Option<Digest>)
    ensures
        match r {
            None => head_of(*info) is None,
            Some(d) => head_of(*info) == Some(d@),
        },
{
    if info.records.len() == 0 {
        None
    } else {
        Some(info.records[info.records.len() - 1].digest)
    }
}

/// Folding a record whose previous-digest link does not match the current
/// head always fails with `ForkedChain`, whatever the record carries.
pub proof fn lemma_fold_out_of_order(info: PackageInfo, record: PackageRecord)
    requires
        !chain_ok(info, record),
    ensures
        fold_err(info, record) == Some(ValidationError::ForkedChain),
{
}

/// Folding the correct next record succeeds: a record whose chain link
/// matches the head, which carries operations, and whose signer is
/// authorized is accepted — in particular after some other record was
/// rejected, since a rejected fold leaves the view untouched.
pub proof fn lemma_fold_next_succeeds(info: PackageInfo, record: PackageRecord)
    requires
        chain_ok(info, record),
        record.operations@.len() > 0,
        auth_ok(info, record),
    ensures
        fold_err(info, record) is None,
{
}

} // verus!
