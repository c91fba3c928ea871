//! 3-way merge with conservative conflict detection.
//!
//! Given a common ancestor (`base`), the local manifest and the remote
//! manifest, decide per vault-id whether a change is **unambiguous** (safe to
//! apply automatically) or **divergent** (a conflict requiring user
//! resolution).
//!
//! *Any* case that is not absolutely safe to auto-merge becomes a conflict.
//! Only these are auto-merged:
//! - one side changed while the other is unchanged vs base;
//! - one side has a new id the other lacks;
//! - both sides converged to the same value;
//! - both sides deleted the same id.
//!
//! Everything else - both changed differently, delete-vs-modify, both created
//! the same id with different values - is a conflict routed to the resolver.
//!
//! Timestamps are **not** used for decisions (the base comparison decides);
//! they are carried only so the resolver can show when an entry was edited.

use vstd::prelude::*;

use crate::error::Error;
use crate::index::VaultIndex;
use crate::strmap::StringMap;
use crate::sync::error::SyncError;
use crate::sync::manifest::{Manifest, VaultEntry};
use crate::text;
use crate::vault::secret::VaultSecret;
use crate::vault::store::VaultStore;

verus! {

// ---------------------------------------------------------------------------
// Decisions
// ---------------------------------------------------------------------------
/// A per-vault-id 3-way merge decision.
#[derive(Debug, PartialEq, Eq)]
pub enum MergeDecision {
    /// Present only in remote (not base, not local): a remote-only addition.
    AddFromRemote(String),
    /// Present only in local (not base, not remote): keep local as-is.
    KeepLocal(String),
    /// Both have it; remote == base (remote unchanged) and local changed: keep
    /// local (the change is unambiguously the local user's).
    TakeLocal(String),
    /// Both have it; local == base (local unchanged) and remote changed: take
    /// remote (the change is unambiguously the remote's).
    TakeRemote(String),
    /// Both sides agree (same value, or both deleted): nothing to do.
    Skip(String),
    /// Divergent - needs user resolution.
    Conflict(String),
}

/// The kind of a merge decision.
#[derive(Debug, Clone, Copy, PartialEq, Eq, Structural)]
pub enum MergeKind {
    AddFromRemote,
    KeepLocal,
    TakeLocal,
    TakeRemote,
    Skip,
    Conflict,
}

impl MergeDecision {
    /// What was decided.
    pub open spec fn kind(&self) -> MergeKind {
        match self {
            MergeDecision::AddFromRemote(_) => MergeKind::AddFromRemote,
            MergeDecision::KeepLocal(_) => MergeKind::KeepLocal,
            MergeDecision::TakeLocal(_) => MergeKind::TakeLocal,
            MergeDecision::TakeRemote(_) => MergeKind::TakeRemote,
            MergeDecision::Skip(_) => MergeKind::Skip,
            MergeDecision::Conflict(_) => MergeKind::Conflict,
        }
    }

    /// The vault-id it was decided for.
    pub open spec fn id(&self) -> Seq<char> {
        match self {
            MergeDecision::AddFromRemote(id) => id@,
            MergeDecision::KeepLocal(id) => id@,
            MergeDecision::TakeLocal(id) => id@,
            MergeDecision::TakeRemote(id) => id@,
            MergeDecision::Skip(id) => id@,
            MergeDecision::Conflict(id) => id@,
        }
    }
}

impl Clone for MergeDecision {
    fn clone(&self) -> (r: Self)
        ensures
            r == *self,
    {
        match self {
            MergeDecision::AddFromRemote(id) => MergeDecision::AddFromRemote(id.clone()),
            MergeDecision::KeepLocal(id) => MergeDecision::KeepLocal(id.clone()),
            MergeDecision::TakeLocal(id) => MergeDecision::TakeLocal(id.clone()),
            MergeDecision::TakeRemote(id) => MergeDecision::TakeRemote(id.clone()),
            MergeDecision::Skip(id) => MergeDecision::Skip(id.clone()),
            MergeDecision::Conflict(id) => MergeDecision::Conflict(id.clone()),
        }
    }
}

/// The decision matrix over the passwords of the base, the local and the remote
/// side (`None` = absent).
pub open spec fn merge_kind(
    b: Option<Seq<char>>,
    l: Option<Seq<char>>,
    r: Option<Seq<char>>,
) -> MergeKind {
    if l == r {
        MergeKind::Skip
    } else if b is None && r is None {
        MergeKind::KeepLocal
    } else if b is None && l is None {
        MergeKind::AddFromRemote
    } else if b is None || l is None || r is None {
        MergeKind::Conflict
    } else if l == b {
        MergeKind::TakeRemote
    } else if r == b {
        MergeKind::TakeLocal
    } else {
        MergeKind::Conflict
    }
}

/// The password that a manifest holds for `id`.
pub open spec fn password_of(m: Manifest, id: Seq<char>) -> Option<Seq<char>> {
    if m.vaults@.contains_key(id) {
        Some(m.vaults@[id].password@)
    } else {
        None
    }
}

/// The password of an entry that may be absent.
pub open spec fn entry_password(entry: Option<&VaultEntry>) -> Option<Seq<char>> {
    match entry {
        Some(e) => Some(e.password@),
        None => None,
    }
}

/// The vault-ids of a list of decisions.
pub open spec fn decision_ids(decisions: Seq<MergeDecision>) -> Seq<Seq<char>> {
    decisions.map_values(|d: MergeDecision| d.id())
}

/// Per-id 3-way decision. `b`, `l` and `r` are the base, local and remote
/// entries (`None` = absent). Compares passwords only.
pub fn decide(
    id: &str,
    b: Option<&VaultEntry>,
    l: Option<&VaultEntry>,
    r: Option<&VaultEntry>,
) -> (d: MergeDecision)
    ensures
        d.id() == id@,
        d.kind() == merge_kind(entry_password(b), entry_password(l), entry_password(r)),
{
    let owned = id.to_owned();
    match (b, l, r) {
        (None, Some(_), None) => MergeDecision::KeepLocal(owned),
        (None, None, Some(_)) => MergeDecision::AddFromRemote(owned),
        (None, Some(le), Some(re)) => {
            if le.password == re.password {
                MergeDecision::Skip(owned)
            } else {
                MergeDecision::Conflict(owned)
            }
        },
        (_, None, None) => MergeDecision::Skip(owned),
        // Delete-vs-keep or delete-vs-modify: a deletion is never propagated
        // silently.
        (Some(_), None, Some(_)) => MergeDecision::Conflict(owned),
        (Some(_), Some(_), None) => MergeDecision::Conflict(owned),
        (Some(be), Some(le), Some(re)) => {
            if le.password == re.password {
                MergeDecision::Skip(owned)
            } else if le.password == be.password {
                MergeDecision::TakeRemote(owned)
            } else if re.password == be.password {
                MergeDecision::TakeLocal(owned)
            } else {
                MergeDecision::Conflict(owned)
            }
        },
    }
}

/// Insert the vault-ids of `m` into `ids`.
fn collect_ids(ids: &mut StringMap<()>, m: &Manifest)
    ensures
        final(ids)@.dom() == old(ids)@.dom().union(m.vaults@.dom()),
{
    let n: usize = m.vaults.len();
    let ghost keys = m.vaults.key_seq();
    for i in 0..n
        invariant
            n == keys.len(),
            keys == m.vaults.key_seq(),
            forall|k: Seq<char>|
                ids@.contains_key(k) <==> old(ids)@.contains_key(k) || (exists|j: int|
                    0 <= j < i && keys[j] == k),
    {
        let key = m.vaults.key_at(i).clone();
        ids.insert(key, ());
    }
    assert forall|k: Seq<char>| ids@.dom().contains(k) == old(ids)@.dom().union(
        m.vaults@.dom(),
    ).contains(k) by {
        if m.vaults@.contains_key(k) {
            assert(keys.contains(k));
            assert(keys[keys.index_of(k)] == k);
        }
        if exists|j: int| 0 <= j < n && keys[j] == k {
            assert(keys.contains(k));
        }
    }
    assert(ids@.dom() =~= old(ids)@.dom().union(m.vaults@.dom()));
}

/// A list of decisions is complete: one per vault-id of the three manifests, in
/// ascending order, each as the decision matrix has it.
pub open spec fn decides(
    base: Manifest,
    local: Manifest,
    remote: Manifest,
    decisions: Seq<MergeDecision>,
) -> bool {
    &&& text::strictly_sorted(decision_ids(decisions))
    &&& forall|k: Seq<char>|
        decision_ids(decisions).contains(k) <==> (base.vaults@.contains_key(k)
            || local.vaults@.contains_key(k) || remote.vaults@.contains_key(k))
    &&& forall|i: int|
        0 <= i < decisions.len() ==> (#[trigger] decisions[i]).kind() == merge_kind(
            password_of(base, decisions[i].id()),
            password_of(local, decisions[i].id()),
            password_of(remote, decisions[i].id()),
        )
}

/// Compute 3-way merge decisions. See the module docs for the matrix.
///
/// `base` may be empty (first-ever sync): every id is then "new on one side"
/// or "both created", so the merge degrades to a 2-way union - still safe, just
/// with conflicts only on same-id-different-value.
#[must_use]
pub fn compute_decisions(base: &Manifest, local: &Manifest, remote: &Manifest) -> (r: Vec<
    MergeDecision,
>)
    ensures
        decides(*base, *local, *remote, r@),
{
    let mut set: StringMap<()> = StringMap::new();
    collect_ids(&mut set, base);
    collect_ids(&mut set, local);
    collect_ids(&mut set, remote);
    let ids = set.keys();
    let mut decisions: Vec<MergeDecision> = Vec::new();
    for i in 0..ids.len()
        invariant
            decisions@.len() == i,
            forall|j: int|
                0 <= j < i ==> (#[trigger] decisions@[j]).id() == ids@[j]@ && decisions@[j].kind()
                    == merge_kind(
                    password_of(*base, ids@[j]@),
                    password_of(*local, ids@[j]@),
                    password_of(*remote, ids@[j]@),
                ),
    {
        let id = ids[i].as_str();
        decisions.push(decide(id, base.vaults.get(id), local.vaults.get(id), remote.vaults.get(id)));
    }
    assert(decision_ids(decisions@) =~= text::views(ids@));
    decisions
}

// ---------------------------------------------------------------------------
// Laws of the decision matrix
// ---------------------------------------------------------------------------
/// Only an unambiguous change is merged without asking: a decision is a
/// conflict exactly when the sides differ and neither "one side has a new id
/// the other lacks" nor "one side changed while the other kept the base value"
/// explains it.
pub proof fn only_unambiguous_changes_are_automatic(
    b: Option<Seq<char>>,
    l: Option<Seq<char>>,
    r: Option<Seq<char>>,
)
    ensures
        merge_kind(b, l, r) != MergeKind::Conflict <==> ({
            ||| l == r
            ||| b is None && (l is None || r is None)
            ||| b is Some && l is Some && r is Some && (l == b || r == b)
        }),
{
}

/// A deletion is never propagated silently: an id of the base that exactly one
/// side still has is a conflict, whether or not that side changed it.
pub proof fn deletions_are_never_automatic(
    b: Option<Seq<char>>,
    l: Option<Seq<char>>,
    r: Option<Seq<char>>,
)
    requires
        b is Some,
        l is None != r is None,
    ensures
        merge_kind(b, l, r) == MergeKind::Conflict,
{
}

/// Sides that agree need nothing, whatever the base.
pub proof fn agreement_is_skipped(b: Option<Seq<char>>, both: Option<Seq<char>>)
    ensures
        merge_kind(b, both, both) == MergeKind::Skip,
{
}

/// The same decision seen from the other side.
pub open spec fn mirrored(kind: MergeKind) -> MergeKind {
    match kind {
        MergeKind::AddFromRemote => MergeKind::KeepLocal,
        MergeKind::KeepLocal => MergeKind::AddFromRemote,
        MergeKind::TakeLocal => MergeKind::TakeRemote,
        MergeKind::TakeRemote => MergeKind::TakeLocal,
        MergeKind::Skip => MergeKind::Skip,
        MergeKind::Conflict => MergeKind::Conflict,
    }
}

/// A change on one side alone is taken, whatever the passwords are: where local
/// still has the base value and remote another, remote is taken, and the other way
/// round. Where both changed, to different values, it is a conflict.
pub proof fn change_on_one_side_is_taken(
    id: &str,
    b: &VaultEntry,
    l: &VaultEntry,
    r: &VaultEntry,
    d: MergeDecision,
)
    requires
        call_ensures(decide, (id, Some(b), Some(l), Some(r)), d),
    ensures
        l.password@ == r.password@ ==> (d matches MergeDecision::Skip(of) && of@ == id@),
        l.password@ != r.password@ && l.password@ == b.password@ ==> (
        d matches MergeDecision::TakeRemote(of) && of@ == id@),
        l.password@ != r.password@ && r.password@ == b.password@ ==> (
        d matches MergeDecision::TakeLocal(of) && of@ == id@),
        l.password@ != r.password@ && l.password@ != b.password@ && r.password@ != b.password@ ==> (
        d matches MergeDecision::Conflict(of) && of@ == id@),
{
}

/// What only one side has, and the base never had, is kept or added; where the
/// base had it, its absence on the other side is a conflict. What both sides lack
/// needs nothing, and of two new values the same one is skipped, different ones
/// conflict.
pub proof fn presence_on_one_side_is_decided(
    id: &str,
    b: Option<&VaultEntry>,
    l: Option<&VaultEntry>,
    r: Option<&VaultEntry>,
    d: MergeDecision,
)
    requires
        call_ensures(decide, (id, b, l, r), d),
    ensures
        l is Some && r is None && b is None ==> (d matches MergeDecision::KeepLocal(of) && of@
            == id@),
        l is None && r is Some && b is None ==> (d matches MergeDecision::AddFromRemote(of) && of@
            == id@),
        l is Some != r is Some && b is Some ==> (d matches MergeDecision::Conflict(of) && of@
            == id@),
        l is None && r is None ==> (d matches MergeDecision::Skip(of) && of@ == id@),
        l is Some && r is Some && b is None ==> if l->0.password@ == r->0.password@ {
            d matches MergeDecision::Skip(of) && of@ == id@
        } else {
            d matches MergeDecision::Conflict(of) && of@ == id@
        },
{
}

/// Every vault-id of the three manifests is decided once, no other is, and the
/// decision is the one for its three entries.
pub proof fn every_id_is_decided_once(
    base: &Manifest,
    local: &Manifest,
    remote: &Manifest,
    decisions: Vec<MergeDecision>,
    id: Seq<char>,
)
    requires
        call_ensures(compute_decisions, (base, local, remote), decisions),
    ensures
        base.vaults@.contains_key(id) || local.vaults@.contains_key(id)
            || remote.vaults@.contains_key(id) <==> exists|i: int|
            0 <= i < decisions@.len() && (#[trigger] decisions@[i]).about(id),
        forall|i: int, j: int|
            0 <= i < decisions@.len() && 0 <= j < decisions@.len() && #[trigger] decisions@[i].about(
                id,
            ) && #[trigger] decisions@[j].about(id) ==> i == j,
        forall|i: int|
            0 <= i < decisions@.len() && (#[trigger] decisions@[i]).about(id) ==> fits(
                base.vaults@,
                local.vaults@,
                remote.vaults@,
                id,
                decisions@[i],
            ),
{
    let ids = decision_ids(decisions@);
    assert forall|i: int, j: int|
        0 <= i < decisions@.len() && 0 <= j < decisions@.len() && #[trigger] decisions@[i].about(id)
            && #[trigger] decisions@[j].about(id) implies i == j by {
        assert(ids[i] == decisions@[i].id());
        assert(ids[j] == decisions@[j].id());
        if i < j {
            text::text_less_asymmetric(ids[i], ids[j]);
        } else if j < i {
            text::text_less_asymmetric(ids[j], ids[i]);
        }
    }
    if ids.contains(id) {
        let i = ids.index_of(id);
        assert(decisions@[i].about(id));
    }
    if exists|i: int| 0 <= i < decisions@.len() && (#[trigger] decisions@[i]).about(id) {
        let i = choose|i: int| 0 <= i < decisions@.len() && (#[trigger] decisions@[i]).about(id);
        assert(ids[i] == id);
        assert(ids.contains(id));
    }
}

impl MergeDecision {
    /// It was decided for `id`.
    pub open spec fn about(&self, id: Seq<char>) -> bool {
        match self {
            MergeDecision::AddFromRemote(of) | MergeDecision::KeepLocal(of)
            | MergeDecision::TakeLocal(of) | MergeDecision::TakeRemote(of)
            | MergeDecision::Skip(of) | MergeDecision::Conflict(of) => of@ == id,
        }
    }
}

/// A decision is the right one for the entries of `id`: each kind exactly where
/// its entries are so.
pub open spec fn fits(
    base: Map<Seq<char>, VaultEntry>,
    local: Map<Seq<char>, VaultEntry>,
    remote: Map<Seq<char>, VaultEntry>,
    id: Seq<char>,
    d: MergeDecision,
) -> bool {
    let in_all = base.contains_key(id) && local.contains_key(id) && remote.contains_key(id);
    let local_as_base = local[id].password@ == base[id].password@;
    let remote_as_base = remote[id].password@ == base[id].password@;
    let alike = local[id].password@ == remote[id].password@;
    &&& d is TakeRemote <==> in_all && local_as_base && !remote_as_base
    &&& d is TakeLocal <==> in_all && remote_as_base && !local_as_base
    &&& d is KeepLocal <==> local.contains_key(id) && !base.contains_key(id)
        && !remote.contains_key(id)
    &&& d is AddFromRemote <==> remote.contains_key(id) && !base.contains_key(id)
        && !local.contains_key(id)
    &&& d is Skip <==> local.contains_key(id) == remote.contains_key(id) && (local.contains_key(id)
        ==> alike)
    &&& d is Conflict <==> {
        ||| in_all && !local_as_base && !remote_as_base && !alike
        ||| base.contains_key(id) && local.contains_key(id) != remote.contains_key(id)
        ||| !base.contains_key(id) && local.contains_key(id) && remote.contains_key(id) && !alike
    }
}

/// The two sides are treated alike: exchanging them exchanges "local" and
/// "remote" in the decision.
pub proof fn merge_is_symmetric(
    b: Option<Seq<char>>,
    l: Option<Seq<char>>,
    r: Option<Seq<char>>,
)
    ensures
        merge_kind(b, r, l) == mirrored(merge_kind(b, l, r)),
{
}

/// Without a base the merge is a union of both sides: an id of one side alone
/// is kept or added, and the only conflict is one id with two values.
pub proof fn empty_base_is_a_union(l: Option<Seq<char>>, r: Option<Seq<char>>)
    ensures
        merge_kind(None, l, r) == MergeKind::Conflict <==> l is Some && r is Some && l != r,
        l is Some && r is None ==> merge_kind(None, l, r) == MergeKind::KeepLocal,
        l is None && r is Some ==> merge_kind(None, l, r) == MergeKind::AddFromRemote,
{
}

/// Timestamps play no part: manifests with the same passwords have the same
/// decisions, id by id.
pub proof fn decisions_ignore_timestamps(
    base1: Manifest,
    local1: Manifest,
    remote1: Manifest,
    decisions1: Seq<MergeDecision>,
    base2: Manifest,
    local2: Manifest,
    remote2: Manifest,
    decisions2: Seq<MergeDecision>,
)
    requires
        base1.passwords() == base2.passwords(),
        local1.passwords() == local2.passwords(),
        remote1.passwords() == remote2.passwords(),
        decides(base1, local1, remote1, decisions1),
        decides(base2, local2, remote2, decisions2),
    ensures
        decision_ids(decisions1) == decision_ids(decisions2),
        forall|i: int|
            0 <= i < decisions1.len() ==> (#[trigger] decisions1[i]).kind() == decisions2[i].kind(),
{
    lemma_same_passwords(base1, base2);
    lemma_same_passwords(local1, local2);
    lemma_same_passwords(remote1, remote2);
    text::strictly_sorted_unique(decision_ids(decisions1), decision_ids(decisions2));
    assert(decisions1.len() == decision_ids(decisions1).len());
    assert(decisions2.len() == decision_ids(decisions2).len());
    assert forall|i: int| 0 <= i < decisions1.len() implies (#[trigger] decisions1[i]).kind()
        == decisions2[i].kind() by {
        assert(decision_ids(decisions1)[i] == decisions1[i].id());
        assert(decision_ids(decisions2)[i] == decisions2[i].id());
    }
}

/// Manifests with the same passwords answer alike for every id.
pub proof fn lemma_same_passwords(a: Manifest, b: Manifest)
    requires
        a.passwords() == b.passwords(),
    ensures
        forall|id: Seq<char>| #[trigger] password_of(a, id) == password_of(b, id),
        forall|id: Seq<char>| a.vaults@.contains_key(id) == b.vaults@.contains_key(id),
{
    assert forall|id: Seq<char>|
        a.vaults@.contains_key(id) == b.vaults@.contains_key(id) && #[trigger] password_of(a, id)
            == password_of(b, id) by {
        assert(a.passwords().dom() =~= a.vaults@.dom());
        assert(b.passwords().dom() =~= b.vaults@.dom());
        assert(a.passwords().contains_key(id) == b.passwords().contains_key(id));
        if a.vaults@.contains_key(id) {
            assert(a.passwords()[id] == a.vaults@[id].password@);
            assert(b.passwords()[id] == b.vaults@[id].password@);
        }
    }
    assert forall|id: Seq<char>| a.vaults@.contains_key(id) == b.vaults@.contains_key(id) by {
        assert(password_of(a, id) == password_of(b, id));
    }
}

// ---------------------------------------------------------------------------
// Conflict resolution
// ---------------------------------------------------------------------------
/// Outcome of resolving a single conflict.
#[derive(Debug, Clone, Copy, PartialEq, Eq, Structural)]
pub enum ConflictResolution {
    /// Keep the local state (local value if present, else local deletion).
    KeepLocal,
    /// Take the remote state (remote value if present, else remote deletion).
    KeepRemote,
    /// Keep local and also store the remote value under `<id>.remote`. Only
    /// meaningful when both sides have a value; the resolver should not offer
    /// it for delete-vs-modify conflicts.
    KeepBoth,
}

/// A question that was put to a resolver, with its answer, or with the error
/// that came in place of one.
pub struct Inquiry {
    pub vault_id: Seq<char>,
    pub base: Option<VaultEntry>,
    pub local: Option<VaultEntry>,
    pub remote: Option<VaultEntry>,
    pub answer: Option<ConflictResolution>,
    pub failure: Option<Error>,
}

/// The entry behind a reference that may be absent.
pub open spec fn owned_entry(entry: Option<&VaultEntry>) -> Option<VaultEntry> {
    match entry {
        Some(e) => Some(*e),
        None => None,
    }
}

/// The entry that a map holds for `id`.
pub open spec fn entry_at(entries: Map<Seq<char>, VaultEntry>, id: Seq<char>) -> Option<VaultEntry> {
    if entries.contains_key(id) {
        Some(entries[id])
    } else {
        None
    }
}

/// The answer in a result, if there is one.
pub open spec fn answer_of(r: Result<ConflictResolution, Error>) -> Option<ConflictResolution> {
    match r {
        Ok(resolution) => Some(resolution),
        Err(_) => None,
    }
}

/// The error in a result, if there is one.
pub open spec fn failure_of(r: Result<ConflictResolution, Error>) -> Option<Error> {
    match r {
        Ok(_) => None,
        Err(e) => Some(e),
    }
}

/// UI-agnostic conflict resolution hook. Receives the full 3-way context
/// (`base`, `local`, `remote` - any may be `None` for deletion conflicts) so the
/// UI can show enough information for an informed decision.
pub trait ConflictResolver {
    /// What it was asked so far, with what it answered. An implementation says
    /// so. The body here, some function of the resolver of which nothing is
    /// known, lets an implementation that Verus does not read leave it out.
    closed spec fn asked(&self) -> Seq<Inquiry> {
        let noted: spec_fn(&Self) -> Seq<Inquiry> = arbitrary();
        noted(self)
    }

    /// It has an answer to every conflict.
    closed spec fn decisive(&self) -> bool {
        false
    }

    fn resolve(
        &mut self,
        vault_id: &str,
        base: Option<&VaultEntry>,
        local: Option<&VaultEntry>,
        remote: Option<&VaultEntry>,
    ) -> (r: Result<ConflictResolution, Error>)
        ensures
            final(self).asked() == old(self).asked().push(
                (Inquiry {
                    vault_id: vault_id@,
                    base: owned_entry(base),
                    local: owned_entry(local),
                    remote: owned_entry(remote),
                    answer: answer_of(r),
                    failure: failure_of(r),
                }),
            ),
            old(self).decisive() ==> r is Ok && final(self).decisive(),
    ;
}

// ---------------------------------------------------------------------------
// Applying decisions
// ---------------------------------------------------------------------------
/// Summary of a pull merge.
#[derive(Debug, PartialEq, Eq)]
pub struct MergeSummary {
    pub added: Vec<String>,
    pub updated: Vec<String>,
    pub removed: Vec<String>,
    pub kept_local: Vec<String>,
    pub skipped: Vec<String>,
    pub conflicts: Vec<String>,
}

/// The vault-ids that a merge reports, list by list.
pub struct MergeReport {
    pub added: Seq<Seq<char>>,
    pub updated: Seq<Seq<char>>,
    pub removed: Seq<Seq<char>>,
    pub kept_local: Seq<Seq<char>>,
    pub skipped: Seq<Seq<char>>,
    pub conflicts: Seq<Seq<char>>,
}

impl MergeSummary {
    /// The vault-ids in the summary.
    pub open spec fn view(&self) -> MergeReport {
        MergeReport {
            added: text::views(self.added@),
            updated: text::views(self.updated@),
            removed: text::views(self.removed@),
            kept_local: text::views(self.kept_local@),
            skipped: text::views(self.skipped@),
            conflicts: text::views(self.conflicts@),
        }
    }

    /// A summary without any vault-id.
    pub fn new() -> (r: Self)
        ensures
            r@ == empty_report(),
    {
        let r = MergeSummary {
            added: Vec::new(),
            updated: Vec::new(),
            removed: Vec::new(),
            kept_local: Vec::new(),
            skipped: Vec::new(),
            conflicts: Vec::new(),
        };
        assert(text::views(Seq::<String>::empty()) =~= Seq::<Seq<char>>::empty());
        r
    }
}

impl Default for MergeSummary {
    fn default() -> (r: Self)
        ensures
            r@ == empty_report(),
    {
        MergeSummary::new()
    }
}

/// A report without any vault-id.
pub open spec fn empty_report() -> MergeReport {
    let none = Seq::<Seq<char>>::empty();
    MergeReport {
        added: none,
        updated: none,
        removed: none,
        kept_local: none,
        skipped: none,
        conflicts: none,
    }
}

/// What applying one decision does to the local entries.
pub enum Effect {
    Keep,
    Write { id: Seq<char>, entry: VaultEntry },
    Remove { id: Seq<char> },
}

/// The id under which the remote value of `id` is kept beside the local one.
pub open spec fn remote_id(id: Seq<char>) -> Seq<char> {
    id + ".remote"@
}

/// What an answered conflict does: `l` and `r` are the local and the remote
/// entry.
pub open spec fn resolved_effect(
    id: Seq<char>,
    l: Option<VaultEntry>,
    r: Option<VaultEntry>,
    answer: ConflictResolution,
) -> Effect {
    match (answer, r) {
        (ConflictResolution::KeepLocal, _) => Effect::Keep,
        (ConflictResolution::KeepRemote, None) => Effect::Remove { id },
        (ConflictResolution::KeepBoth, None) => Effect::Keep,
        (ConflictResolution::KeepBoth, Some(entry)) if l is Some => Effect::Write {
            id: remote_id(id),
            entry,
        },
        (_, Some(entry)) => Effect::Write { id, entry },
    }
}

/// What a decision does to the local entries.
pub open spec fn decision_effect(
    local: Map<Seq<char>, VaultEntry>,
    remote: Map<Seq<char>, VaultEntry>,
    decision: MergeDecision,
    answer: Option<ConflictResolution>,
) -> Effect {
    let id = decision.id();
    match (decision.kind(), answer) {
        (MergeKind::AddFromRemote, _) | (MergeKind::TakeRemote, _) => Effect::Write {
            id,
            entry: remote[id],
        },
        (MergeKind::Conflict, Some(resolution)) => resolved_effect(
            id,
            entry_at(local, id),
            entry_at(remote, id),
            resolution,
        ),
        _ => Effect::Keep,
    }
}

/// The local entries after an effect.
pub open spec fn applied(
    local: Map<Seq<char>, VaultEntry>,
    effect: Effect,
) -> Map<Seq<char>, VaultEntry> {
    match effect {
        Effect::Keep => local,
        Effect::Write { id, entry } => local.insert(id, entry),
        Effect::Remove { id } => local.remove(id),
    }
}

/// The indexed ids after an effect.
pub open spec fn indexed(ids: Set<Seq<char>>, effect: Effect) -> Set<Seq<char>> {
    match effect {
        Effect::Keep => ids,
        Effect::Write { id, entry } => ids.insert(id),
        Effect::Remove { id } => ids.remove(id),
    }
}

/// The flag of the index after an effect: raised where the effect changed which
/// ids are indexed.
pub open spec fn raised(ids: Set<Seq<char>>, changed: bool, effect: Effect) -> bool {
    match effect {
        Effect::Keep => changed,
        Effect::Write { id, entry } => changed || !ids.contains(id),
        Effect::Remove { id } => changed || ids.contains(id),
    }
}

/// What an effect may do to the store. A deletion that the store refuses is not
/// an error, so after a removal the entry may still be there; no other entry
/// changes.
pub open spec fn stored(
    before: Map<Seq<char>, Seq<char>>,
    after: Map<Seq<char>, Seq<char>>,
    effect: Effect,
) -> bool {
    match effect {
        Effect::Keep => after == before,
        Effect::Write { id, entry } => after == before.insert(id, entry.password@),
        Effect::Remove { id } => crate::vault::store::kept_elsewhere(before, after, id),
    }
}

/// What an effect does to a store that nothing can make fail.
pub open spec fn stored_surely(
    before: Map<Seq<char>, Seq<char>>,
    effect: Effect,
) -> Map<Seq<char>, Seq<char>> {
    match effect {
        Effect::Keep => before,
        Effect::Write { id, entry } => before.insert(id, entry.password@),
        Effect::Remove { id } => before.remove(id),
    }
}

/// The report after a decision.
pub open spec fn reported(
    report: MergeReport,
    decision: MergeDecision,
    effect: Effect,
) -> MergeReport {
    let id = decision.id();
    match decision.kind() {
        MergeKind::AddFromRemote => MergeReport { added: report.added.push(id), ..report },
        MergeKind::TakeRemote => MergeReport { updated: report.updated.push(id), ..report },
        MergeKind::KeepLocal | MergeKind::TakeLocal => MergeReport {
            kept_local: report.kept_local.push(id),
            ..report
        },
        MergeKind::Skip => MergeReport { skipped: report.skipped.push(id), ..report },
        MergeKind::Conflict => {
            let noted = MergeReport { conflicts: report.conflicts.push(id), ..report };
            match effect {
                Effect::Keep => noted,
                Effect::Write { id: written, entry } => if written == id {
                    MergeReport { updated: noted.updated.push(id), ..noted }
                } else {
                    MergeReport { added: noted.added.push(written), ..noted }
                },
                Effect::Remove { id: gone } => MergeReport {
                    removed: noted.removed.push(id),
                    ..noted
                },
            }
        },
    }
}

/// How far a merge has come: the local entries, what was done, what was asked,
/// and the report.
pub struct MergeState {
    pub local: Map<Seq<char>, VaultEntry>,
    pub effects: Seq<Effect>,
    pub inquiries: Seq<Inquiry>,
    pub report: MergeReport,
}

/// The question that a conflict puts to the resolver.
pub open spec fn inquiry(
    base: Map<Seq<char>, VaultEntry>,
    local: Map<Seq<char>, VaultEntry>,
    remote: Map<Seq<char>, VaultEntry>,
    id: Seq<char>,
    answer: Option<ConflictResolution>,
    failure: Option<Error>,
) -> Inquiry {
    Inquiry {
        vault_id: id,
        base: entry_at(base, id),
        local: entry_at(local, id),
        remote: entry_at(remote, id),
        answer,
        failure,
    }
}

/// One more decision applied; `answer` is the answer to its conflict.
pub open spec fn merge_step(
    state: MergeState,
    base: Map<Seq<char>, VaultEntry>,
    remote: Map<Seq<char>, VaultEntry>,
    decision: MergeDecision,
    answer: Option<ConflictResolution>,
) -> MergeState {
    let effect = decision_effect(state.local, remote, decision, answer);
    MergeState {
        local: applied(state.local, effect),
        effects: state.effects.push(effect),
        inquiries: if decision.kind() == MergeKind::Conflict {
            state.inquiries.push(inquiry(base, state.local, remote, decision.id(), answer, None))
        } else {
            state.inquiries
        },
        report: reported(state.report, decision, effect),
    }
}

/// All decisions applied in order; `answers` are the answers to the conflicts
/// among them, in order.
pub open spec fn merged(
    base: Map<Seq<char>, VaultEntry>,
    local: Map<Seq<char>, VaultEntry>,
    remote: Map<Seq<char>, VaultEntry>,
    decisions: Seq<MergeDecision>,
    answers: Seq<Option<ConflictResolution>>,
) -> MergeState
    decreases decisions.len(),
{
    if decisions.len() == 0 {
        MergeState {
            local,
            effects: Seq::empty(),
            inquiries: Seq::empty(),
            report: empty_report(),
        }
    } else if decisions.last().kind() == MergeKind::Conflict {
        merge_step(
            merged(base, local, remote, decisions.drop_last(), answers.drop_last()),
            base,
            remote,
            decisions.last(),
            answers.last(),
        )
    } else {
        merge_step(
            merged(base, local, remote, decisions.drop_last(), answers),
            base,
            remote,
            decisions.last(),
            None,
        )
    }
}

/// The indexed ids after all effects.
pub open spec fn all_indexed(ids: Set<Seq<char>>, effects: Seq<Effect>) -> Set<Seq<char>>
    decreases effects.len(),
{
    if effects.len() == 0 {
        ids
    } else {
        indexed(all_indexed(ids, effects.drop_last()), effects.last())
    }
}

/// The flag of the index after all effects.
pub open spec fn all_raised(ids: Set<Seq<char>>, changed: bool, effects: Seq<Effect>) -> bool
    decreases effects.len(),
{
    if effects.len() == 0 {
        changed
    } else {
        raised(
            all_indexed(ids, effects.drop_last()),
            all_raised(ids, changed, effects.drop_last()),
            effects.last(),
        )
    }
}

/// The index after all effects: which ids it lists and whether it is to be
/// written back. Path and version stay, and one that cannot be used stays as it
/// is.
pub open spec fn index_follows(
    before: VaultIndex,
    after: VaultIndex,
    effects: Seq<Effect>,
) -> bool {
    &&& after.ids() == all_indexed(before.ids(), effects)
    &&& after.changed == all_raised(before.ids(), before.changed, effects)
    &&& after.path == before.path && after.version() == before.version()
    &&& after.readable() == before.readable()
    &&& !before.readable() ==> after == before
}

/// What all effects together may do to the store.
pub open spec fn all_stored(
    before: Map<Seq<char>, Seq<char>>,
    after: Map<Seq<char>, Seq<char>>,
    effects: Seq<Effect>,
) -> bool
    decreases effects.len(),
{
    if effects.len() == 0 {
        after == before
    } else {
        exists|mid: Map<Seq<char>, Seq<char>>|
            all_stored(before, mid, effects.drop_last()) && #[trigger] stored(
                mid,
                after,
                effects.last(),
            )
    }
}

/// What all effects together do to a store that nothing can make fail.
pub open spec fn all_stored_surely(
    before: Map<Seq<char>, Seq<char>>,
    effects: Seq<Effect>,
) -> Map<Seq<char>, Seq<char>>
    decreases effects.len(),
{
    if effects.len() == 0 {
        before
    } else {
        stored_surely(all_stored_surely(before, effects.drop_last()), effects.last())
    }
}

/// Every decision to take a remote entry is about one that is there.
pub open spec fn takes_what_is_there(
    remote: Map<Seq<char>, VaultEntry>,
    decisions: Seq<MergeDecision>,
) -> bool {
    forall|i: int|
        0 <= i < decisions.len() && takes_remote((#[trigger] decisions[i]).kind())
            ==> remote.contains_key(decisions[i].id())
}

/// The local manifest mirrors the store and the index: it has exactly the
/// indexed ids, each with the password that the store holds.
pub open spec fn mirrors(
    local: Map<Seq<char>, VaultEntry>,
    ids: Set<Seq<char>>,
    contents: Map<Seq<char>, Seq<char>>,
) -> bool {
    &&& local.dom() == ids
    &&& forall|id: Seq<char>| #[trigger]
        local.contains_key(id) ==> contents.contains_key(id) && contents[id]
            == local[id].password@
}

/// The local manifest agrees with the store and the index: it has exactly the
/// passwords that the store holds under indexed ids.
pub open spec fn agrees(
    local: Map<Seq<char>, VaultEntry>,
    ids: Set<Seq<char>>,
    contents: Map<Seq<char>, Seq<char>>,
) -> bool {
    crate::sync::manifest::entry_passwords(local) == contents.restrict(ids)
}

/// No decision is a conflict.
pub open spec fn conflict_free(decisions: Seq<MergeDecision>) -> bool {
    forall|i: int|
        0 <= i < decisions.len() ==> (#[trigger] decisions[i]).kind() != MergeKind::Conflict
}

/// The answers that a resolver gave.
pub open spec fn answers_in(inquiries: Seq<Inquiry>) -> Seq<Option<ConflictResolution>> {
    inquiries.map_values(|q: Inquiry| q.answer)
}

/// The error for a decision about an id that the remote manifest lacks.
pub open spec fn is_missing_id_error(e: Error, id: Seq<char>) -> bool {
    e matches Error::Sync(SyncError::Manifest(message)) && message@
        == "merge decision referenced absent vault-id '"@ + id + "'"@
}

fn missing_id_error(id: &str) -> (e: Error)
    ensures
        is_missing_id_error(e, id@),
{
    Error::Sync(
        SyncError::Manifest(
            text::join3("merge decision referenced absent vault-id '", id, "'"),
        ),
    )
}

/// Write `entry` to store, then index, then the in-memory manifest (store is
/// authoritative; index is a cache that mirrors it).
fn write_entry<S: VaultStore>(
    local: &mut Manifest,
    store: &mut S,
    index: &mut VaultIndex,
    vault_id: &str,
    entry: &VaultEntry,
) -> (r: Result<(), Error>)
    ensures
        final(local).version == old(local).version,
        old(store).reliable() ==> final(store).reliable(),
        old(store).reliable() && old(index).readable() ==> r is Ok,
        match r {
            Ok(()) => {
                let effect = Effect::Write { id: vault_id@, entry: *entry };
                &&& final(local).vaults@ == applied(old(local).vaults@, effect)
                &&& stored(old(store).contents(), final(store).contents(), effect)
                &&& old(index).with_id(vault_id@, *final(index))
            },
            Err(e) => {
                &&& old(store).fails_with(e) || old(index).failure(e)
                &&& final(local).vaults@ == old(local).vaults@
                &&& *final(index) == *old(index)
                &&& crate::vault::store::kept_elsewhere(
                    old(store).contents(),
                    final(store).contents(),
                    vault_id@,
                )
            },
        },
{
    let secret = VaultSecret::new(entry.password.clone());
    match store.set(vault_id, &secret) {
        Ok(()) => {},
        Err(e) => {
            return Err(e);
        },
    }
    match index.add(vault_id) {
        Ok(()) => {},
        Err(e) => {
            return Err(e);
        },
    }
    local.vaults.insert(vault_id.to_owned(), entry.clone());
    Ok(())
}

/// Remove `vault_id` from store, index, and the in-memory manifest. What the
/// store answers is ignored.
fn remove_entry<S: VaultStore>(
    local: &mut Manifest,
    store: &mut S,
    index: &mut VaultIndex,
    vault_id: &str,
) -> (r: Result<(), Error>)
    ensures
        final(local).version == old(local).version,
        old(store).reliable() ==> final(store).reliable(),
        stored(
            old(store).contents(),
            final(store).contents(),
            (Effect::Remove { id: vault_id@ }),
        ),
        old(store).reliable() ==> final(store).contents() == old(store).contents().remove(
            vault_id@,
        ),
        match r {
            Ok(()) => {
                let effect = Effect::Remove { id: vault_id@ };
                &&& final(local).vaults@ == applied(old(local).vaults@, effect)
                &&& old(index).without_id(vault_id@, *final(index))
            },
            Err(e) => {
                &&& !old(index).readable() && old(index).failure(e)
                &&& final(local).vaults@ == old(local).vaults@
                &&& *final(index) == *old(index)
            },
        },
{
    let _ = store.delete(vault_id);
    proof {
        if old(store).reliable() {
            assert(store.contents() =~= old(store).contents().remove(vault_id@));
        }
    }
    match index.remove(vault_id) {
        Ok(()) => {},
        Err(e) => {
            return Err(e);
        },
    }
    local.vaults.remove(vault_id);
    Ok(())
}

/// The answer to a conflict on `id` is honoured in the local entries: keeping
/// local changes nothing; keeping remote leaves the remote state, a deletion too;
/// keeping both leaves the local value and the remote one beside it, where there
/// are two to keep, else the one there is.
pub open spec fn answer_honoured(
    before: Map<Seq<char>, VaultEntry>,
    after: Map<Seq<char>, VaultEntry>,
    remote: Map<Seq<char>, VaultEntry>,
    id: Seq<char>,
    answer: ConflictResolution,
) -> bool {
    let beside = id + ".remote"@;
    match answer {
        ConflictResolution::KeepLocal => after == before,
        ConflictResolution::KeepRemote => {
            &&& after.contains_key(id) == remote.contains_key(id)
            &&& remote.contains_key(id) ==> after[id] == remote[id]
            &&& after.remove(id) == before.remove(id)
        },
        ConflictResolution::KeepBoth => if !remote.contains_key(id) {
            after == before
        } else if before.contains_key(id) {
            &&& after.contains_key(id) && after[id] == before[id]
            &&& after.contains_key(beside) && after[beside] == remote[id]
            &&& after.remove(beside) == before.remove(beside)
        } else {
            &&& after.contains_key(id) && after[id] == remote[id]
            &&& after.remove(id) == before.remove(id)
        },
    }
}

/// The answer to a conflict on `id` is honoured in the store.
pub open spec fn store_honours(
    before: Map<Seq<char>, Seq<char>>,
    after: Map<Seq<char>, Seq<char>>,
    local: Map<Seq<char>, VaultEntry>,
    remote: Map<Seq<char>, VaultEntry>,
    id: Seq<char>,
    answer: ConflictResolution,
) -> bool {
    let beside = id + ".remote"@;
    match answer {
        ConflictResolution::KeepLocal => after == before,
        ConflictResolution::KeepRemote => {
            &&& after.contains_key(id) == remote.contains_key(id)
            &&& remote.contains_key(id) ==> after[id] == remote[id].password@
            &&& after.remove(id) == before.remove(id)
        },
        ConflictResolution::KeepBoth => if !remote.contains_key(id) {
            after == before
        } else if local.contains_key(id) {
            &&& after.contains_key(beside) && after[beside] == remote[id].password@
            &&& after.remove(beside) == before.remove(beside)
        } else {
            &&& after.contains_key(id) && after[id] == remote[id].password@
            &&& after.remove(id) == before.remove(id)
        },
    }
}

/// A user gets what they chose: an answered conflict is honoured in the local
/// entries and in a store that nothing can make fail.
pub proof fn answered_conflict_is_honoured(
    state: MergeState,
    base: Map<Seq<char>, VaultEntry>,
    remote: Map<Seq<char>, VaultEntry>,
    contents: Map<Seq<char>, Seq<char>>,
    id: String,
    answer: ConflictResolution,
)
    ensures
        ({
            let next = merge_step(
                state,
                base,
                remote,
                MergeDecision::Conflict(id),
                Some(answer),
            );
            &&& answer_honoured(state.local, next.local, remote, id@, answer)
            &&& store_honours(
                contents,
                stored_surely(contents, next.effects.last()),
                state.local,
                remote,
                id@,
                answer,
            )
        }),
{
    let decision = MergeDecision::Conflict(id);
    let effect = decision_effect(state.local, remote, decision, Some(answer));
    assert(state.effects.push(effect).last() == effect);
    lemma_resolution_honoured(state.local, remote, contents, id@, answer);
}

/// A conflict is put to the resolver with the three entries as they are, and reported as a
/// conflict; beside that, a kept remote value is reported as updated or removed, and one
/// that is kept beside the local one as added.
pub proof fn answered_conflict_is_reported(
    state: MergeState,
    base: Map<Seq<char>, VaultEntry>,
    remote: Map<Seq<char>, VaultEntry>,
    id: String,
    answer: ConflictResolution,
)
    ensures
        ({
            let next = merge_step(
                state,
                base,
                remote,
                MergeDecision::Conflict(id),
                Some(answer),
            );
            let asked = next.inquiries.last();
            let both = state.local.contains_key(id@) && remote.contains_key(id@);
            let old = state.report;
            let new = next.report;
            &&& next.inquiries.len() == state.inquiries.len() + 1
            &&& asked.vault_id == id@ && asked.answer == Some(answer)
            &&& match asked.base {
                Some(e) => base.contains_key(id@) && e == base[id@],
                None => !base.contains_key(id@),
            }
            &&& match asked.local {
                Some(e) => state.local.contains_key(id@) && e == state.local[id@],
                None => !state.local.contains_key(id@),
            }
            &&& match asked.remote {
                Some(e) => remote.contains_key(id@) && e == remote[id@],
                None => !remote.contains_key(id@),
            }
            &&& new.conflicts == old.conflicts.push(id@)
            &&& new.kept_local == old.kept_local && new.skipped == old.skipped
            &&& new.updated == if remote.contains_key(id@) && (answer
                == ConflictResolution::KeepRemote || (answer == ConflictResolution::KeepBoth
                && !both)) {
                old.updated.push(id@)
            } else {
                old.updated
            }
            &&& new.removed == if answer == ConflictResolution::KeepRemote && !remote.contains_key(
                id@,
            ) {
                old.removed.push(id@)
            } else {
                old.removed
            }
            &&& new.added == if answer == ConflictResolution::KeepBoth && both {
                old.added.push(id@ + ".remote"@)
            } else {
                old.added
            }
        }),
{
    reveal_strlit(".remote");
    assert((id@ + ".remote"@).len() != id@.len());
    let next = merge_step(state, base, remote, MergeDecision::Conflict(id), Some(answer));
    assert(next.inquiries.last() == inquiry(
        base,
        state.local,
        remote,
        id@,
        Some(answer),
        None,
    ));
}

/// A decision that needs no answer does what it says: it writes the remote entry of its
/// vault-id and reports it as added or updated, or changes nothing and reports it as kept or
/// unchanged. It touches no other id and asks nothing.
pub proof fn automatic_decision_does_what_it_says(
    state: MergeState,
    base: Map<Seq<char>, VaultEntry>,
    remote: Map<Seq<char>, VaultEntry>,
    d: MergeDecision,
    contents: Map<Seq<char>, Seq<char>>,
    ids: Set<Seq<char>>,
)
    requires
        !(d is Conflict),
    ensures
        ({
            let next = merge_step(state, base, remote, d, None);
            let done = next.effects.last();
            let (old, new) = (state.report, next.report);
            &&& next.inquiries == state.inquiries
            &&& new.removed == old.removed && new.conflicts == old.conflicts
            &&& match d {
                MergeDecision::AddFromRemote(id) => {
                    &&& next.local == state.local.insert(id@, remote[id@])
                    &&& stored_surely(contents, done) == contents.insert(
                        id@,
                        remote[id@].password@,
                    )
                    &&& indexed(ids, done) == ids.insert(id@)
                    &&& new.added == old.added.push(id@) && new.updated == old.updated
                        && new.kept_local == old.kept_local && new.skipped == old.skipped
                },
                MergeDecision::TakeRemote(id) => {
                    &&& next.local == state.local.insert(id@, remote[id@])
                    &&& stored_surely(contents, done) == contents.insert(
                        id@,
                        remote[id@].password@,
                    )
                    &&& indexed(ids, done) == ids.insert(id@)
                    &&& new.updated == old.updated.push(id@) && new.added == old.added
                        && new.kept_local == old.kept_local && new.skipped == old.skipped
                },
                MergeDecision::KeepLocal(id) | MergeDecision::TakeLocal(id) => {
                    &&& next.local == state.local && stored_surely(contents, done) == contents
                    &&& indexed(ids, done) == ids
                    &&& new.kept_local == old.kept_local.push(id@) && new.added == old.added
                        && new.updated == old.updated && new.skipped == old.skipped
                },
                MergeDecision::Skip(id) => {
                    &&& next.local == state.local && stored_surely(contents, done) == contents
                    &&& indexed(ids, done) == ids
                    &&& new.skipped == old.skipped.push(id@) && new.added == old.added
                        && new.updated == old.updated && new.kept_local == old.kept_local
                },
                MergeDecision::Conflict(_) => true,
            }
        }),
{
    let effect = decision_effect(state.local, remote, d, None);
    assert(state.effects.push(effect).last() == effect);
}

/// The effect of an answer honours it.
proof fn lemma_resolution_honoured(
    local: Map<Seq<char>, VaultEntry>,
    remote: Map<Seq<char>, VaultEntry>,
    contents: Map<Seq<char>, Seq<char>>,
    id: Seq<char>,
    answer: ConflictResolution,
)
    ensures
        ({
            let effect = resolved_effect(id, entry_at(local, id), entry_at(remote, id), answer);
            &&& answer_honoured(local, applied(local, effect), remote, id, answer)
            &&& store_honours(
                contents,
                stored_surely(contents, effect),
                local,
                remote,
                id,
                answer,
            )
        }),
{
    reveal_strlit(".remote");
    let beside = id + ".remote"@;
    assert(beside.len() != id.len());
    let effect = resolved_effect(id, entry_at(local, id), entry_at(remote, id), answer);
    let after = applied(local, effect);
    let stored_after = stored_surely(contents, effect);
    assert(after.remove(id) =~= local.remove(id) || answer == ConflictResolution::KeepBoth);
    assert(stored_after.remove(id) =~= contents.remove(id) || answer
        == ConflictResolution::KeepBoth);
    if answer == ConflictResolution::KeepBoth && remote.contains_key(id) {
        if local.contains_key(id) {
            assert(after.remove(beside) =~= local.remove(beside));
            assert(stored_after.remove(beside) =~= contents.remove(beside));
        } else {
            assert(after.remove(id) =~= local.remove(id));
            assert(stored_after.remove(id) =~= contents.remove(id));
        }
    }
}

/// What an effect does to the index.
pub open spec fn index_steps(before: VaultIndex, after: VaultIndex, effect: Effect) -> bool {
    match effect {
        Effect::Keep => after == before,
        Effect::Write { id, entry } => before.with_id(id, after),
        Effect::Remove { id } => before.without_id(id, after),
    }
}

/// The error with which an effect may fail: that of the store that refuses a
/// write, or that of an unusable index.
pub open spec fn effect_failure<S: VaultStore>(
    effect: Effect,
    store: S,
    index: VaultIndex,
    e: Error,
) -> bool {
    match effect {
        Effect::Keep => false,
        Effect::Write { id, entry } => store.fails_with(e) || index.failure(e),
        Effect::Remove { id } => index.failure(e),
    }
}

/// Apply the answer to a conflict on `id`.
pub fn apply_resolution<S: VaultStore>(
    local: &mut Manifest,
    remote: &Manifest,
    id: &str,
    resolution: ConflictResolution,
    store: &mut S,
    index: &mut VaultIndex,
    summary: &mut MergeSummary,
) -> (r: Result<(), Error>)
    ensures
        final(local).version == old(local).version,
        old(index).readable() ==> final(index).readable(),
        old(store).reliable() ==> final(store).reliable(),
        old(store).reliable() && old(index).readable() ==> r is Ok,
        resolution == ConflictResolution::KeepLocal ==> {
            &&& r is Ok && final(local).vaults@ == old(local).vaults@
            &&& *final(store) == *old(store) && *final(index) == *old(index)
            &&& final(summary)@ == old(summary)@
        },
        r is Ok ==> answer_honoured(
            old(local).vaults@,
            final(local).vaults@,
            remote.vaults@,
            id@,
            resolution,
        ),
        r is Ok && old(store).reliable() ==> store_honours(
            old(store).contents(),
            final(store).contents(),
            old(local).vaults@,
            remote.vaults@,
            id@,
            resolution,
        ),
        ({
            let l = entry_at(old(local).vaults@, id@);
            let effect = resolved_effect(id@, l, entry_at(remote.vaults@, id@), resolution);
            match r {
                Ok(()) => {
                    let report = old(summary)@;
                    &&& final(local).vaults@ == applied(old(local).vaults@, effect)
                    &&& stored(old(store).contents(), final(store).contents(), effect)
                    &&& old(store).reliable() ==> final(store).contents() == stored_surely(
                        old(store).contents(),
                        effect,
                    )
                    &&& index_steps(*old(index), *final(index), effect)
                    &&& final(summary)@ == match effect {
                        Effect::Keep => report,
                        Effect::Write { id: written, entry } => if written == id@ {
                            MergeReport { updated: report.updated.push(id@), ..report }
                        } else {
                            MergeReport { added: report.added.push(written), ..report }
                        },
                        Effect::Remove { id: gone } => MergeReport {
                            removed: report.removed.push(id@),
                            ..report
                        },
                    }
                },
                Err(e) => {
                    &&& effect_failure(effect, *old(store), *old(index), e)
                    &&& final(local).vaults@ == old(local).vaults@
                    &&& *final(index) == *old(index)
                    &&& crate::vault::store::kept_elsewhere(
                        old(store).contents(),
                        final(store).contents(),
                        match effect {
                            Effect::Write { id: written, entry } => written,
                            _ => id@,
                        },
                    )
                },
            }
        }),
{
    let has_local = local.vaults.contains_key(id);
    proof {
        lemma_resolution_honoured(
            local.vaults@,
            remote.vaults@,
            store.contents(),
            id@,
            resolution,
        );
        reveal_strlit(".remote");
        assert(remote_id(id@).len() != id@.len());
    }
    match (resolution, remote.vaults.get(id)) {
        (ConflictResolution::KeepLocal, _) => Ok(()),
        (ConflictResolution::KeepRemote, None) => {
            match remove_entry(local, store, index, id) {
                Ok(()) => {},
                Err(e) => {
                    return Err(e);
                },
            }
            let ghost removed = summary.removed@;
            summary.removed.push(id.to_owned());
            assert(text::views(summary.removed@) =~= text::views(removed).push(id@));
            Ok(())
        },
        // There is nothing on the remote side to keep as well.
        (ConflictResolution::KeepBoth, None) => Ok(()),
        (_, Some(entry)) => {
            if resolution == ConflictResolution::KeepBoth && has_local {
                let new_id = text::join2(id, ".remote");
                match write_entry(local, store, index, new_id.as_str(), entry) {
                    Ok(()) => {},
                    Err(e) => {
                        return Err(e);
                    },
                }
                let ghost added = summary.added@;
                let ghost written = new_id@;
                summary.added.push(new_id);
                assert(text::views(summary.added@) =~= text::views(added).push(written));
            } else {
                match write_entry(local, store, index, id, entry) {
                    Ok(()) => {},
                    Err(e) => {
                        return Err(e);
                    },
                }
                let ghost updated = summary.updated@;
                summary.updated.push(id.to_owned());
                assert(text::views(summary.updated@) =~= text::views(updated).push(id@));
            }
            Ok(())
        },
    }
}

/// The store after a failed step: at most the entry of `id`, or the one beside
/// it for the remote value, was touched.
pub open spec fn at_most_touched(
    before: Map<Seq<char>, Seq<char>>,
    after: Map<Seq<char>, Seq<char>>,
    id: Seq<char>,
) -> bool {
    crate::vault::store::kept_elsewhere(before, after, id)
        || crate::vault::store::kept_elsewhere(before, after, remote_id(id))
}

/// A decision that is refused before the store is reached: it takes a remote
/// entry that is not there, or the resolver failed on its conflict (`asked`).
pub open spec fn refused_outright(
    remote: Map<Seq<char>, VaultEntry>,
    decision: MergeDecision,
    asked: Inquiry,
) -> bool {
    ||| takes_remote(decision.kind()) && !remote.contains_key(decision.id())
    ||| decision.kind() == MergeKind::Conflict && asked.failure is Some
}

/// The error of a decision that fails, in the state that it found; `asked` is
/// the question that its conflict put to the resolver.
pub open spec fn decision_failure<S: VaultStore>(
    local: Map<Seq<char>, VaultEntry>,
    remote: Map<Seq<char>, VaultEntry>,
    decision: MergeDecision,
    asked: Inquiry,
    store: S,
    index: VaultIndex,
    e: Error,
) -> bool {
    if takes_remote(decision.kind()) && !remote.contains_key(decision.id()) {
        is_missing_id_error(e, decision.id())
    } else if decision.kind() == MergeKind::Conflict && asked.failure is Some {
        asked.failure == Some(e)
    } else {
        effect_failure(
            decision_effect(local, remote, decision, answer_to(decision, asked)),
            store,
            index,
            e,
        )
    }
}

/// The answer that a decision acts on: the one to its conflict.
pub open spec fn answer_to(decision: MergeDecision, asked: Inquiry) -> Option<ConflictResolution> {
    if decision.kind() == MergeKind::Conflict {
        asked.answer
    } else {
        None
    }
}

/// Apply one merge decision to the local manifest, writing through to `store`
/// and `index` for a remote-originating change. A conflict is routed to
/// `resolver`.
pub fn apply_decision<S: VaultStore, R: ConflictResolver>(
    local: &mut Manifest,
    base: &Manifest,
    remote: &Manifest,
    decision: &MergeDecision,
    store: &mut S,
    index: &mut VaultIndex,
    resolver: &mut R,
    summary: &mut MergeSummary,
) -> (r: Result<(), Error>)
    ensures
        final(local).version == old(local).version,
        old(index).readable() ==> final(index).readable(),
        old(store).reliable() ==> final(store).reliable(),
        old(resolver).decisive() ==> final(resolver).decisive(),
        old(store).reliable() && old(index).readable() && (decision.kind() == MergeKind::Conflict
            ==> old(resolver).decisive()) && (takes_remote(decision.kind())
            ==> remote.vaults@.contains_key(decision.id())) ==> r is Ok,
        decision.kind() != MergeKind::Conflict ==> final(resolver).asked() == old(
            resolver,
        ).asked(),
        decision.kind() == MergeKind::Conflict ==> final(resolver).asked() == old(
            resolver,
        ).asked().push(
            inquiry(
                base.vaults@,
                old(local).vaults@,
                remote.vaults@,
                decision.id(),
                final(resolver).asked().last().answer,
                final(resolver).asked().last().failure,
            ),
        ),
        (decision is KeepLocal || decision is TakeLocal || decision is Skip) ==> {
            &&& r is Ok && final(local).vaults@ == old(local).vaults@
            &&& *final(store) == *old(store) && *final(index) == *old(index)
        },
        r is Ok ==> match decision {
            MergeDecision::AddFromRemote(id) | MergeDecision::TakeRemote(id) => {
                &&& remote.vaults@.contains_key(id@)
                &&& final(local).vaults@ == old(local).vaults@.insert(id@, remote.vaults@[id@])
                &&& final(store).contents() == old(store).contents().insert(
                    id@,
                    remote.vaults@[id@].password@,
                )
                &&& final(index).ids() == old(index).ids().insert(id@)
            },
            MergeDecision::Conflict(id) => {
                let answer = final(resolver).asked().last().answer;
                &&& answer is Some
                &&& answer_honoured(
                    old(local).vaults@,
                    final(local).vaults@,
                    remote.vaults@,
                    id@,
                    answer->0,
                )
                &&& old(store).reliable() ==> store_honours(
                    old(store).contents(),
                    final(store).contents(),
                    old(local).vaults@,
                    remote.vaults@,
                    id@,
                    answer->0,
                )
            },
            _ => true,
        },
        ({
            let asked = final(resolver).asked().last();
            let answer = answer_to(*decision, asked);
            let effect = decision_effect(old(local).vaults@, remote.vaults@, *decision, answer);
            match r {
                Ok(()) => {
                    &&& effect matches Effect::Write { id, entry } ==> remote.vaults@.contains_key(
                        decision.id(),
                    )
                    &&& decision.kind() == MergeKind::Conflict ==> answer is Some
                        && asked.failure is None
                    &&& final(local).vaults@ == applied(old(local).vaults@, effect)
                    &&& stored(old(store).contents(), final(store).contents(), effect)
                    &&& old(store).reliable() ==> final(store).contents() == stored_surely(
                        old(store).contents(),
                        effect,
                    )
                    &&& index_steps(*old(index), *final(index), effect)
                    &&& final(summary)@ == reported(old(summary)@, *decision, effect)
                },
                Err(e) => {
                    &&& takes_remote(decision.kind()) || decision.kind() == MergeKind::Conflict
                    &&& decision_failure(
                        old(local).vaults@,
                        remote.vaults@,
                        *decision,
                        asked,
                        *old(store),
                        *old(index),
                        e,
                    )
                    &&& refused_outright(remote.vaults@, *decision, asked) ==> *final(store)
                        == *old(store)
                    &&& final(local).vaults@ == old(local).vaults@
                    &&& *final(index) == *old(index)
                    &&& at_most_touched(
                        old(store).contents(),
                        final(store).contents(),
                        decision.id(),
                    )
                },
            }
        }),
{
    match decision {
        MergeDecision::AddFromRemote(id) => {
            let entry = match remote.vaults.get(id.as_str()) {
                Some(entry) => entry,
                None => {
                    return Err(missing_id_error(id.as_str()));
                },
            };
            match write_entry(local, store, index, id.as_str(), entry) {
                Ok(()) => {},
                Err(e) => {
                    return Err(e);
                },
            }
            let ghost before = summary.added@;
            summary.added.push(id.clone());
            assert(text::views(summary.added@) =~= text::views(before).push(id@));
            Ok(())
        },
        MergeDecision::TakeRemote(id) => {
            let entry = match remote.vaults.get(id.as_str()) {
                Some(entry) => entry,
                None => {
                    return Err(missing_id_error(id.as_str()));
                },
            };
            match write_entry(local, store, index, id.as_str(), entry) {
                Ok(()) => {},
                Err(e) => {
                    return Err(e);
                },
            }
            let ghost before = summary.updated@;
            summary.updated.push(id.clone());
            assert(text::views(summary.updated@) =~= text::views(before).push(id@));
            Ok(())
        },
        // Local already holds this state in store and index.
        MergeDecision::KeepLocal(id) => {
            let ghost before = summary.kept_local@;
            summary.kept_local.push(id.clone());
            assert(text::views(summary.kept_local@) =~= text::views(before).push(id@));
            Ok(())
        },
        MergeDecision::TakeLocal(id) => {
            let ghost before = summary.kept_local@;
            summary.kept_local.push(id.clone());
            assert(text::views(summary.kept_local@) =~= text::views(before).push(id@));
            Ok(())
        },
        MergeDecision::Skip(id) => {
            let ghost before = summary.skipped@;
            summary.skipped.push(id.clone());
            assert(text::views(summary.skipped@) =~= text::views(before).push(id@));
            Ok(())
        },
        MergeDecision::Conflict(id) => {
            let ghost before = summary.conflicts@;
            summary.conflicts.push(id.clone());
            assert(text::views(summary.conflicts@) =~= text::views(before).push(id@));
            let answer = resolver.resolve(
                id.as_str(),
                base.vaults.get(id.as_str()),
                local.vaults.get(id.as_str()),
                remote.vaults.get(id.as_str()),
            );
            match answer {
                Ok(resolution) => apply_resolution(
                    local,
                    remote,
                    id.as_str(),
                    resolution,
                    store,
                    index,
                    summary,
                ),
                Err(e) => Err(e),
            }
        },
    }
}

/// Apply merge decisions to the local manifest, writing through to `store` and
/// `index` for any remote-originating change. Conflicts are routed to
/// `resolver`.
///
/// Write ordering is store-first, then index: the store is the source of truth,
/// the index a cache. `local` mirrors store and index, and stays consistent
/// with them as each decision is applied.
pub fn apply_decisions<S: VaultStore, R: ConflictResolver>(
    local: &mut Manifest,
    base: &Manifest,
    remote: &Manifest,
    decisions: &Vec<MergeDecision>,
    store: &mut S,
    index: &mut VaultIndex,
    resolver: &mut R,
) -> (r: Result<MergeSummary, Error>)
    ensures
        final(local).version == old(local).version,
        old(index).readable() ==> final(index).readable(),
        old(store).reliable() ==> final(store).reliable(),
        old(resolver).decisive() ==> final(resolver).decisive(),
        old(store).reliable() && old(index).readable() && (old(resolver).decisive()
            || conflict_free(decisions@)) && takes_what_is_there(remote.vaults@, decisions@)
            ==> r is Ok,
        final(resolver).asked().len() >= old(resolver).asked().len(),
        final(resolver).asked().take(old(resolver).asked().len() as int) == old(resolver).asked(),
        match r {
            Ok(summary) => {
                let asked = final(resolver).asked().skip(old(resolver).asked().len() as int);
                let end = merged(
                    base.vaults@,
                    old(local).vaults@,
                    remote.vaults@,
                    decisions@,
                    answers_in(asked),
                );
                &&& asked == end.inquiries
                &&& final(local).vaults@ == end.local
                &&& summary@ == end.report
                &&& index_follows(*old(index), *final(index), end.effects)
                &&& all_stored(old(store).contents(), final(store).contents(), end.effects)
                &&& old(store).reliable() ==> final(store).contents() == all_stored_surely(
                    old(store).contents(),
                    end.effects,
                )
                &&& mirrors(old(local).vaults@, old(index).ids(), old(store).contents())
                    ==> mirrors(final(local).vaults@, final(index).ids(), final(store).contents())
                &&& agrees(old(local).vaults@, old(index).ids(), old(store).contents())
                    ==> agrees(final(local).vaults@, final(index).ids(), final(store).contents())
                &&& decides(*base, *old(local), *remote, decisions@) && conflict_free(decisions@)
                    ==> merges_cleanly(
                    base.vaults@,
                    old(local).vaults@,
                    remote.vaults@,
                    final(local).vaults@,
                )
            },
            // The decisions before the one that failed are applied; of that
            // one, at most the store was reached.
            Err(e) => exists|n: int, mid: S|
                0 <= n < decisions@.len() && #[trigger] stopped_at(
                    base.vaults@,
                    old(local).vaults@,
                    remote.vaults@,
                    decisions@,
                    n,
                    final(resolver).asked().skip(old(resolver).asked().len() as int),
                    final(local).vaults@,
                    *old(store),
                    mid,
                    *final(store),
                    *old(index),
                    *final(index),
                    e,
                ),
        },
        (forall|i: int|
            0 <= i < decisions@.len() ==> (#[trigger] decisions@[i]).kind() == MergeKind::KeepLocal
                || decisions@[i].kind() == MergeKind::TakeLocal || decisions@[i].kind()
                == MergeKind::Skip) ==> r is Ok,
{
    let mut summary = MergeSummary::new();
    let ghost asked0 = resolver.asked();
    let ghost local0 = local.vaults@;
    let ghost ids0 = index.ids();
    let ghost contents0 = store.contents();
    assert(asked0.skip(asked0.len() as int) =~= Seq::<Inquiry>::empty());
    assert(decisions@.take(0) =~= Seq::<MergeDecision>::empty());
    for i in 0..decisions.len()
        invariant
            asked0 == old(resolver).asked(),
            local0 == old(local).vaults@,
            ids0 == old(index).ids(),
            contents0 == old(store).contents(),
            local.version == old(local).version,
            old(index).readable() ==> index.readable(),
            old(store).reliable() ==> store.reliable(),
            old(resolver).decisive() ==> resolver.decisive(),
            resolver.asked().len() >= asked0.len(),
            resolver.asked().take(asked0.len() as int) == asked0,
            ({
                let asked = resolver.asked().skip(asked0.len() as int);
                let now = merged(
                    base.vaults@,
                    local0,
                    remote.vaults@,
                    decisions@.take(i as int),
                    answers_in(asked),
                );
                &&& asked == now.inquiries
                &&& local.vaults@ == now.local
                &&& summary@ == now.report
                &&& index_follows(*old(index), *index, now.effects)
                &&& all_stored(contents0, store.contents(), now.effects)
                &&& old(store).reliable() ==> store.contents() == all_stored_surely(
                    contents0,
                    now.effects,
                )
                &&& mirrors(local0, ids0, contents0) ==> mirrors(
                    local.vaults@,
                    index.ids(),
                    store.contents(),
                )
                &&& agrees(local0, ids0, contents0) ==> agrees(
                    local.vaults@,
                    index.ids(),
                    store.contents(),
                )
            }),
    {
        let decision = &decisions[i];
        let ghost asked1 = resolver.asked();
        let ghost local1 = local.vaults@;
        let ghost ids1 = index.ids();
        let ghost contents1 = store.contents();
        let ghost store1 = *store;
        let ghost now = merged(
            base.vaults@,
            local0,
            remote.vaults@,
            decisions@.take(i as int),
            answers_in(asked1.skip(asked0.len() as int)),
        );
        match apply_decision(
            local,
            base,
            remote,
            decision,
            store,
            index,
            resolver,
            &mut summary,
        ) {
            Ok(()) => {},
            Err(e) => {
                assert(resolver.asked().take(asked0.len() as int) =~= asked0);
                proof {
                    let asked = resolver.asked().skip(asked0.len() as int);
                    if decision.kind() == MergeKind::Conflict {
                        assert(asked =~= asked1.skip(asked0.len() as int).push(
                            resolver.asked().last(),
                        ));
                        assert(asked.drop_last() =~= asked1.skip(asked0.len() as int));
                        assert(asked.last() == resolver.asked().last());
                    }
                    assert(stopped_at(
                        base.vaults@,
                        local0,
                        remote.vaults@,
                        decisions@,
                        i as int,
                        asked,
                        local.vaults@,
                        *old(store),
                        store1,
                        *store,
                        *old(index),
                        *index,
                        e,
                    ));
                }
                return Err(e);
            },
        }
        proof {
            let asked = resolver.asked().skip(asked0.len() as int);
            let before = decisions@.take(i as int);
            let after = decisions@.take(i + 1);
            assert(after.drop_last() =~= before);
            assert(after.last() == *decision);
            assert(resolver.asked().take(asked0.len() as int) =~= asked0);
            let answer = if decision.kind() == MergeKind::Conflict {
                assert(asked =~= asked1.skip(asked0.len() as int).push(resolver.asked().last()));
                assert(answers_in(asked).drop_last() =~= answers_in(
                    asked1.skip(asked0.len() as int),
                ));
                assert(answers_in(asked).last() == resolver.asked().last().answer);
                resolver.asked().last().answer
            } else {
                None
            };
            let effect = decision_effect(local1, remote.vaults@, *decision, answer);
            let next = merged(
                base.vaults@,
                local0,
                remote.vaults@,
                after,
                answers_in(asked),
            );
            assert(next == merge_step(now, base.vaults@, remote.vaults@, *decision, answer));
            assert(next.effects.drop_last() =~= now.effects);
            assert(all_stored(contents0, contents1, next.effects.drop_last()));
            assert(stored(contents1, store.contents(), effect));
            assert(asked =~= next.inquiries);
            assert(local.vaults@ == next.local);
            assert(summary@ == next.report);
            assert(next.effects.last() == effect);
            assert(index_follows(*old(index), *index, next.effects));
            assert(all_stored(contents0, store.contents(), next.effects));
            if mirrors(local0, ids0, contents0) {
                lemma_mirror_kept(local1, ids1, contents1, store.contents(), effect);
            }
            if agrees(local0, ids0, contents0) {
                lemma_agreement_kept(local1, ids1, contents1, store.contents(), effect);
            }
        }
    }
    assert(decisions@.take(decisions@.len() as int) =~= decisions@);
    proof {
        if decides(*base, *old(local), *remote, decisions@) && conflict_free(decisions@) {
            assert forall|i: int| 0 <= i < decisions@.len() implies !(
            (#[trigger] decisions@[i]) is Conflict) by {
                assert(decisions@[i].kind() != MergeKind::Conflict);
            }
            conflict_free_merge_is_clean(
                *base,
                *old(local),
                *remote,
                decisions@,
                answers_in(resolver.asked().skip(asked0.len() as int)),
            );
        }
    }
    Ok(summary)
}

/// A merge that needed no answer loses nothing and takes the changed side: what
/// either side has is there afterwards, and nothing else; what only one side has
/// is as that side has it; of two values the changed one is there, and where both
/// are the same the local entry stays.
pub open spec fn merges_cleanly(
    base: Map<Seq<char>, VaultEntry>,
    local: Map<Seq<char>, VaultEntry>,
    remote: Map<Seq<char>, VaultEntry>,
    end: Map<Seq<char>, VaultEntry>,
) -> bool {
    forall|id: Seq<char>| #[trigger] merges_cleanly_at(base, local, remote, end, id)
}

/// `merges_cleanly` for one vault-id.
pub open spec fn merges_cleanly_at(
    base: Map<Seq<char>, VaultEntry>,
    local: Map<Seq<char>, VaultEntry>,
    remote: Map<Seq<char>, VaultEntry>,
    end: Map<Seq<char>, VaultEntry>,
    id: Seq<char>,
) -> bool {
    &&& end.contains_key(id) <==> local.contains_key(id) || remote.contains_key(id)
    &&& local.contains_key(id) && !remote.contains_key(id) ==> end[id] == local[id]
    &&& !local.contains_key(id) && remote.contains_key(id) ==> end[id] == remote[id]
    &&& local.contains_key(id) && remote.contains_key(id) ==> {
        if local[id].password@ == remote[id].password@ {
            end[id] == local[id]
        } else if local[id].password@ == base[id].password@ {
            base.contains_key(id) && end[id] == remote[id]
        } else {
            base.contains_key(id) && remote[id].password@ == base[id].password@ && end[id]
                == local[id]
        }
    }
}

/// Without conflicts the merge is clean: see `merges_cleanly`.
pub proof fn conflict_free_merge_is_clean(
    base: Manifest,
    local: Manifest,
    remote: Manifest,
    decisions: Seq<MergeDecision>,
    answers: Seq<Option<ConflictResolution>>,
)
    requires
        decides(base, local, remote, decisions),
        forall|i: int| 0 <= i < decisions.len() ==> !((#[trigger] decisions[i]) is Conflict),
    ensures
        merges_cleanly(
            base.vaults@,
            local.vaults@,
            remote.vaults@,
            merged(base.vaults@, local.vaults@, remote.vaults@, decisions, answers).local,
        ),
{
    let (b, l, r) = (base.vaults@, local.vaults@, remote.vaults@);
    lemma_answers_unused(b, l, r, decisions, answers, Seq::empty());
    let end = merged(b, l, r, decisions, answers).local;
    assert forall|id: Seq<char>| #[trigger] merges_cleanly_at(b, l, r, end, id) by {
        automatic_merge_takes_the_changed_side(base, local, remote, decisions, id);
        let ids = decision_ids(decisions);
        if l.contains_key(id) || r.contains_key(id) || b.contains_key(id) {
            assert(ids.contains(id));
            let i = ids.index_of(id);
            assert(decisions[i].id() == id);
            assert(!(decisions[i] is Conflict));
        }
        assert(entry_at(end, id) == if takes_remote(
            merge_kind(password_of(base, id), password_of(local, id), password_of(remote, id)),
        ) {
            entry_at(r, id)
        } else {
            entry_at(l, id)
        });
    }
}

/// The vault-ids of a list of decisions are all different, and none of them puts a remote
/// value beside a local one under `id`.
pub open spec fn stands_alone(decisions: Seq<MergeDecision>, id: Seq<char>) -> bool {
    &&& forall|i: int, j: int|
        0 <= i < j < decisions.len() ==> (#[trigger] decisions[i]).id() != (
        #[trigger] decisions[j]).id()
    &&& forall|i: int|
        0 <= i < decisions.len() ==> (#[trigger] decisions[i]).id() + ".remote"@ != id
}

/// Every answer is honoured in the end, and so is every decision that needed none, whatever
/// else was decided and answered: a conflict that was answered with the local side ends with
/// the local entry, one that was answered with the remote side with the remote one or none,
/// and one that was answered with both with the local one, or the remote one where it is the
/// only one; a remote entry that was taken is there, and everything else is as it was.
pub proof fn every_answer_is_honoured_in_the_end(
    base: Map<Seq<char>, VaultEntry>,
    local: Map<Seq<char>, VaultEntry>,
    remote: Map<Seq<char>, VaultEntry>,
    decisions: Seq<MergeDecision>,
    answers: Seq<Option<ConflictResolution>>,
    id: Seq<char>,
)
    requires
        stands_alone(decisions, id),
    ensures
        ({
            let end = merged(base, local, remote, decisions, answers);
            let as_local = end.local.contains_key(id) == local.contains_key(id) && (
            local.contains_key(id) ==> end.local[id] == local[id]);
            let as_remote = end.local.contains_key(id) == remote.contains_key(id) && (
            remote.contains_key(id) ==> end.local[id] == remote[id]);
            &&& (forall|i: int| 0 <= i < decisions.len() ==> (#[trigger] decisions[i]).id() != id)
                ==> as_local && forall|k: int|
                0 <= k < end.inquiries.len() ==> (#[trigger] end.inquiries[k]).vault_id != id
            &&& forall|i: int|
                0 <= i < decisions.len() && (#[trigger] decisions[i]).id() == id ==> match decisions[i] {
                    MergeDecision::TakeRemote(_) | MergeDecision::AddFromRemote(_) => {
                        end.local.contains_key(id) && end.local[id] == remote[id]
                    },
                    MergeDecision::KeepLocal(_) | MergeDecision::TakeLocal(_)
                    | MergeDecision::Skip(_) => as_local,
                    MergeDecision::Conflict(_) => true,
                }
            &&& forall|k: int|
                0 <= k < end.inquiries.len() && (#[trigger] end.inquiries[k]).vault_id == id
                    ==> match end.inquiries[k].answer {
                    Some(ConflictResolution::KeepLocal) => as_local,
                    Some(ConflictResolution::KeepRemote) => as_remote,
                    Some(ConflictResolution::KeepBoth) => if local.contains_key(id) {
                        as_local
                    } else {
                        as_remote
                    },
                    None => true,
                }
        }),
    decreases decisions.len(),
{
    let end = merged(base, local, remote, decisions, answers);
    if decisions.len() > 0 {
        let n = decisions.len() - 1;
        let before = decisions.drop_last();
        let last = decisions.last();
        assert(last == decisions[n]);
        assert forall|i: int, j: int| 0 <= i < j < before.len() implies (
        #[trigger] before[i]).id() != (#[trigger] before[j]).id() by {
            assert(decisions[i].id() != decisions[j].id());
        }
        assert forall|i: int| 0 <= i < before.len() implies (#[trigger] before[i]).id()
            + ".remote"@ != id by {
            assert(decisions[i].id() + ".remote"@ != id);
        }
        let (earlier, answer) = if last.kind() == MergeKind::Conflict {
            (answers.drop_last(), answers.last())
        } else {
            (answers, None)
        };
        every_answer_is_honoured_in_the_end(base, local, remote, before, earlier, id);
        let prev = merged(base, local, remote, before, earlier);
        let effect = decision_effect(prev.local, remote, last, answer);
        assert(end == merge_step(prev, base, remote, last, answer));
        reveal_strlit(".remote");
        assert(remote_id(last.id()).len() != last.id().len());
        assert(remote_id(last.id()) != id);
        if last.id() == id {
            assert forall|i: int| 0 <= i < before.len() implies (#[trigger] before[i]).id()
                != id by {
                assert(decisions[i].id() != decisions[n].id());
            }
            assert forall|i: int| 0 <= i < decisions.len() && (
            #[trigger] decisions[i]).id() == id implies i == n by {
                if i < n {
                    assert(decisions[i].id() != decisions[n].id());
                }
            }
            assert forall|k: int| 0 <= k < end.inquiries.len() && (
            #[trigger] end.inquiries[k]).vault_id == id implies k == prev.inquiries.len()
                && last.kind() == MergeKind::Conflict && end.inquiries[k].answer == answer by {
                if k < prev.inquiries.len() {
                    assert(end.inquiries[k] == prev.inquiries[k]);
                }
            }
        } else {
            assert(end.local.contains_key(id) == prev.local.contains_key(id));
            assert(prev.local.contains_key(id) ==> end.local[id] == prev.local[id]);
            assert forall|i: int| 0 <= i < decisions.len() && (
            #[trigger] decisions[i]).id() == id implies i < n && before[i] == decisions[i] by {}
            if forall|i: int| 0 <= i < decisions.len() ==> (#[trigger] decisions[i]).id() != id {
                assert forall|i: int| 0 <= i < before.len() implies (#[trigger] before[i]).id()
                    != id by {
                    assert(decisions[i].id() != id);
                }
            }
            assert forall|k: int| 0 <= k < end.inquiries.len() && (
            #[trigger] end.inquiries[k]).vault_id == id implies k < prev.inquiries.len()
                && end.inquiries[k] == prev.inquiries[k] by {}
        }
    }
}

/// A remote value that was kept beside a local one is there in the end, under the vault-id with
/// `.remote` behind it, where that is no vault-id of its own.
pub proof fn value_kept_beside_is_there_in_the_end(
    base: Map<Seq<char>, VaultEntry>,
    local: Map<Seq<char>, VaultEntry>,
    remote: Map<Seq<char>, VaultEntry>,
    decisions: Seq<MergeDecision>,
    answers: Seq<Option<ConflictResolution>>,
    id: Seq<char>,
    k: int,
)
    requires
        forall|i: int, j: int|
            0 <= i < j < decisions.len() ==> (#[trigger] decisions[i]).id() != (
            #[trigger] decisions[j]).id(),
        forall|i: int|
            0 <= i < decisions.len() ==> (#[trigger] decisions[i]).id() != id + ".remote"@,
        ({
            let asked = merged(base, local, remote, decisions, answers).inquiries;
            &&& 0 <= k < asked.len() && asked[k].vault_id == id
            &&& asked[k].answer == Some(ConflictResolution::KeepBoth)
            &&& asked[k].local is Some && asked[k].remote is Some
        }),
    ensures
        ({
            let end = merged(base, local, remote, decisions, answers).local;
            &&& end.contains_key(id + ".remote"@) && end[id + ".remote"@] == remote[id]
            &&& remote.contains_key(id)
        }),
    decreases decisions.len(),
{
    let beside = id + ".remote"@;
    let end = merged(base, local, remote, decisions, answers);
    if decisions.len() > 0 {
        let n = decisions.len() - 1;
        let before = decisions.drop_last();
        let last = decisions.last();
        assert(last == decisions[n]);
        assert forall|i: int, j: int| 0 <= i < j < before.len() implies (
        #[trigger] before[i]).id() != (#[trigger] before[j]).id() by {
            assert(decisions[i].id() != decisions[j].id());
        }
        assert forall|i: int| 0 <= i < before.len() implies (#[trigger] before[i]).id()
            != beside by {
            assert(decisions[i].id() != beside);
        }
        let (earlier, answer) = if last.kind() == MergeKind::Conflict {
            (answers.drop_last(), answers.last())
        } else {
            (answers, None)
        };
        let prev = merged(base, local, remote, before, earlier);
        assert(end == merge_step(prev, base, remote, last, answer));
        assert(last.id() != beside);
        if k < prev.inquiries.len() {
            assert(end.inquiries[k] == prev.inquiries[k]);
            value_kept_beside_is_there_in_the_end(
                base,
                local,
                remote,
                before,
                earlier,
                id,
                k,
            );
            if remote_id(last.id()) == beside {
                reveal_strlit(".remote");
                assert(last.id() =~= remote_id(last.id()).take(last.id().len() as int));
                assert(id =~= beside.take(id.len() as int));
                assert(last.id().len() + 7 == id.len() + 7);
                assert(last.id() == id);
                lemma_asked_about_decided(base, local, remote, before, earlier, k);
                let i = choose|i: int|
                    0 <= i < before.len() && (#[trigger] before[i]).id() == id;
                assert(decisions[i].id() != decisions[n].id());
            }
        }
    }
}

/// Every question is about a vault-id that was decided.
proof fn lemma_asked_about_decided(
    base: Map<Seq<char>, VaultEntry>,
    local: Map<Seq<char>, VaultEntry>,
    remote: Map<Seq<char>, VaultEntry>,
    decisions: Seq<MergeDecision>,
    answers: Seq<Option<ConflictResolution>>,
    k: int,
)
    requires
        0 <= k < merged(base, local, remote, decisions, answers).inquiries.len(),
    ensures
        exists|i: int|
            0 <= i < decisions.len() && (#[trigger] decisions[i]).id() == merged(
                base,
                local,
                remote,
                decisions,
                answers,
            ).inquiries[k].vault_id,
    decreases decisions.len(),
{
    let end = merged(base, local, remote, decisions, answers);
    if decisions.len() > 0 {
        let n = decisions.len() - 1;
        let before = decisions.drop_last();
        let last = decisions.last();
        let (earlier, answer) = if last.kind() == MergeKind::Conflict {
            (answers.drop_last(), answers.last())
        } else {
            (answers, None)
        };
        let prev = merged(base, local, remote, before, earlier);
        assert(end == merge_step(prev, base, remote, last, answer));
        if k < prev.inquiries.len() {
            assert(end.inquiries[k] == prev.inquiries[k]);
            lemma_asked_about_decided(base, local, remote, before, earlier, k);
            let i = choose|i: int|
                0 <= i < before.len() && (#[trigger] before[i]).id() == prev.inquiries[k].vault_id;
            assert(decisions[i] == before[i]);
        } else {
            assert(decisions[n].id() == end.inquiries[k].vault_id);
        }
    }
}

/// A decision that fails touches at most its own entry in the store, or the one beside it.
pub proof fn failed_decision_touches_its_own_id(
    before: Map<Seq<char>, Seq<char>>,
    after: Map<Seq<char>, Seq<char>>,
    id: Seq<char>,
    other: Seq<char>,
)
    requires
        at_most_touched(before, after, id),
        other != id,
        other != id + ".remote"@,
    ensures
        before.contains_key(other) == after.contains_key(other),
        before.contains_key(other) ==> before[other] == after[other],
{
    if crate::vault::store::kept_elsewhere(before, after, id) {
        crate::vault::store::other_ids_are_untouched(before, after, id, other);
    } else {
        crate::vault::store::other_ids_are_untouched(before, after, id + ".remote"@, other);
    }
}

/// Without conflicts no answer is looked at.
proof fn lemma_answers_unused(
    base: Map<Seq<char>, VaultEntry>,
    local: Map<Seq<char>, VaultEntry>,
    remote: Map<Seq<char>, VaultEntry>,
    decisions: Seq<MergeDecision>,
    answers: Seq<Option<ConflictResolution>>,
    others: Seq<Option<ConflictResolution>>,
)
    requires
        forall|i: int| 0 <= i < decisions.len() ==> !((#[trigger] decisions[i]) is Conflict),
    ensures
        merged(base, local, remote, decisions, answers) == merged(
            base,
            local,
            remote,
            decisions,
            others,
        ),
    decreases decisions.len(),
{
    if decisions.len() > 0 {
        lemma_answers_unused(base, local, remote, decisions.drop_last(), answers, others);
        assert(!(decisions[decisions.len() - 1] is Conflict));
    }
}

/// The state that a failing decision leaves: the `n` decisions before it are
/// applied, the local entries and the index are as they left them, and the store
/// differs from what they left (`mid`) at most in the entry that the failing
/// decision was about to write. `asked` is what the resolver was asked on the
/// way; the error is that of the decision.
pub open spec fn stopped_at<S: VaultStore>(
    base: Map<Seq<char>, VaultEntry>,
    local0: Map<Seq<char>, VaultEntry>,
    remote: Map<Seq<char>, VaultEntry>,
    decisions: Seq<MergeDecision>,
    n: int,
    asked: Seq<Inquiry>,
    local1: Map<Seq<char>, VaultEntry>,
    store0: S,
    mid: S,
    store1: S,
    index0: VaultIndex,
    index1: VaultIndex,
    e: Error,
) -> bool {
    let decision = decisions[n];
    let settled = if decision.kind() == MergeKind::Conflict {
        asked.drop_last()
    } else {
        asked
    };
    let done = merged(base, local0, remote, decisions.take(n), answers_in(settled));
    &&& settled == done.inquiries
    &&& decision.kind() == MergeKind::Conflict ==> asked.len() > 0 && asked.last() == inquiry(
        base,
        done.local,
        remote,
        decision.id(),
        asked.last().answer,
        asked.last().failure,
    )
    &&& local1 == done.local
    &&& index_follows(index0, index1, done.effects)
    &&& all_stored(store0.contents(), mid.contents(), done.effects)
    &&& at_most_touched(mid.contents(), store1.contents(), decision.id())
    &&& refused_outright(remote, decision, asked.last()) ==> store1 == mid
    &&& decision_failure(done.local, remote, decision, asked.last(), mid, index1, e)
}

/// A merge that failed on its way with `e`, having asked `asked`: see
/// `stopped_at`.
pub open spec fn stopped_midway<S: VaultStore>(
    base: Manifest,
    local: Manifest,
    remote: Manifest,
    decisions: Seq<MergeDecision>,
    asked: Seq<Inquiry>,
    store0: S,
    store1: S,
    index0: VaultIndex,
    index1: VaultIndex,
    e: Error,
) -> bool {
    exists|n: int, left: Map<Seq<char>, VaultEntry>, mid: S|
        0 <= n < decisions.len() && #[trigger] stopped_at(
            base.vaults@,
            local.vaults@,
            remote.vaults@,
            decisions,
            n,
            asked,
            left,
            store0,
            mid,
            store1,
            index0,
            index1,
            e,
        )
}

/// An effect that reaches the manifest, the index and the store keeps the three
/// in agreement.
proof fn lemma_agreement_kept(
    local: Map<Seq<char>, VaultEntry>,
    ids: Set<Seq<char>>,
    before: Map<Seq<char>, Seq<char>>,
    after: Map<Seq<char>, Seq<char>>,
    effect: Effect,
)
    requires
        agrees(local, ids, before),
        stored(before, after, effect),
    ensures
        agrees(applied(local, effect), indexed(ids, effect), after),
{
    let then = crate::sync::manifest::entry_passwords(local);
    let now = crate::sync::manifest::entry_passwords(applied(local, effect));
    match effect {
        Effect::Keep => {},
        Effect::Write { id, entry } => {
            assert(now =~= then.insert(id, entry.password@));
            assert(now =~= after.restrict(indexed(ids, effect)));
        },
        Effect::Remove { id } => {
            assert(now =~= then.remove(id));
            assert forall|k: Seq<char>| #[trigger] now.contains_key(k) == after.restrict(
                indexed(ids, effect),
            ).contains_key(k) && (now.contains_key(k) ==> now[k] == after[k]) by {
                assert(before.remove(id).contains_key(k) == after.remove(id).contains_key(k));
                if k != id && before.contains_key(k) {
                    assert(before.remove(id)[k] == after.remove(id)[k]);
                }
            }
            assert(now =~= after.restrict(indexed(ids, effect)));
        },
    }
}

/// An effect that reaches the manifest, the index and the store keeps the
/// manifest a mirror of the other two.
proof fn lemma_mirror_kept(
    local: Map<Seq<char>, VaultEntry>,
    ids: Set<Seq<char>>,
    before: Map<Seq<char>, Seq<char>>,
    after: Map<Seq<char>, Seq<char>>,
    effect: Effect,
)
    requires
        mirrors(local, ids, before),
        stored(before, after, effect),
    ensures
        mirrors(applied(local, effect), indexed(ids, effect), after),
{
    let local1 = applied(local, effect);
    match effect {
        Effect::Keep => {},
        Effect::Write { id, entry } => {
            assert(local1.dom() =~= indexed(ids, effect));
            assert forall|k: Seq<char>| #[trigger] local1.contains_key(k) implies after.contains_key(
                k,
            ) && after[k] == local1[k].password@ by {
                if k != id {
                    assert(local.contains_key(k));
                }
            }
        },
        Effect::Remove { id } => {
            assert(local1.dom() =~= indexed(ids, effect));
            assert forall|k: Seq<char>| #[trigger] local1.contains_key(k) implies after.contains_key(
                k,
            ) && after[k] == local1[k].password@ by {
                assert(local.contains_key(k));
                assert(before.remove(id).contains_key(k));
                assert(after.remove(id).contains_key(k));
                assert(before.remove(id)[k] == after.remove(id)[k]);
            }
        },
    }
}

/// A decision that brings the remote entry in.
pub open spec fn takes_remote(kind: MergeKind) -> bool {
    kind == MergeKind::AddFromRemote || kind == MergeKind::TakeRemote
}

/// The entry of `id` after the first `n` of a conflict-free list of decisions.
proof fn lemma_merged_prefix(
    base: Map<Seq<char>, VaultEntry>,
    local: Map<Seq<char>, VaultEntry>,
    remote: Map<Seq<char>, VaultEntry>,
    decisions: Seq<MergeDecision>,
    n: int,
    id: Seq<char>,
)
    requires
        0 <= n <= decisions.len(),
        forall|i: int|
            0 <= i < decisions.len() ==> (#[trigger] decisions[i]).kind() != MergeKind::Conflict,
    ensures
        entry_at(merged(base, local, remote, decisions.take(n), Seq::empty()).local, id) == (
        if exists|i: int|
            0 <= i < n && (#[trigger] decisions[i]).id() == id && takes_remote(
                decisions[i].kind(),
            ) {
            Some(remote[id])
        } else {
            entry_at(local, id)
        }),
    decreases n,
{
    if n > 0 {
        lemma_merged_prefix(base, local, remote, decisions, n - 1, id);
        let before = decisions.take(n - 1);
        let after = decisions.take(n);
        assert(after.drop_last() =~= before);
        assert(after.last() == decisions[n - 1]);
        let prev = merged(base, local, remote, before, Seq::empty());
        assert(merged(base, local, remote, after, Seq::empty()) == merge_step(
            prev,
            base,
            remote,
            decisions[n - 1],
            None,
        ));
        if exists|i: int|
            0 <= i < n - 1 && (#[trigger] decisions[i]).id() == id && takes_remote(
                decisions[i].kind(),
            ) {
            let i = choose|i: int|
                0 <= i < n - 1 && (#[trigger] decisions[i]).id() == id && takes_remote(
                    decisions[i].kind(),
                );
            assert(0 <= i < n && decisions[i].id() == id);
        }
    }
}

/// A merge without conflicts takes, id by id, the remote entry where the remote
/// side alone has it or alone changed it, and leaves the local one everywhere
/// else.
pub proof fn automatic_merge_takes_the_changed_side(
    base: Manifest,
    local: Manifest,
    remote: Manifest,
    decisions: Seq<MergeDecision>,
    id: Seq<char>,
)
    requires
        decides(base, local, remote, decisions),
        forall|i: int|
            0 <= i < decisions.len() ==> (#[trigger] decisions[i]).kind() != MergeKind::Conflict,
    ensures
        entry_at(
            merged(base.vaults@, local.vaults@, remote.vaults@, decisions, Seq::empty()).local,
            id,
        ) == (if takes_remote(
            merge_kind(password_of(base, id), password_of(local, id), password_of(remote, id)),
        ) {
            entry_at(remote.vaults@, id)
        } else {
            entry_at(local.vaults@, id)
        }),
{
    let n = decisions.len() as int;
    lemma_merged_prefix(base.vaults@, local.vaults@, remote.vaults@, decisions, n, id);
    assert(decisions.take(n) =~= decisions);
    let ids = decision_ids(decisions);
    let kind = merge_kind(password_of(base, id), password_of(local, id), password_of(remote, id));
    if takes_remote(kind) {
        assert(ids.contains(id));
        let i = ids.index_of(id);
        assert(decisions[i].id() == id);
    }
}

} // verus!
