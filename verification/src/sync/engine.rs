//! `SyncEngine` - orchestrates push, pull and status over a backend.
//!
//! All three operations share the same core: fetch the remote manifest (an
//! empty manifest if the remote is absent - there is no "first push" special
//! case), load the local base (last-synced snapshot), and run a **3-way merge**
//! (base / local / remote).
//!
//! - **push** = read-merge-write: it never blindly overwrites the remote. It
//!   merges remote into local first; if the merge has any conflict it
//!   **aborts** and tells the user to `sync pull` to resolve, so no side is ever
//!   silently picked. Only a conflict-free merge is encrypted and uploaded, and
//!   the base is then updated to the merged result.
//! - **pull** = merge with interactive conflict resolution, writing through to
//!   the local store and index. No auto-push.
//! - **status** = 3-way compare, read-only.
//!
//! An operation is a [`SyncRun`]. Its stage says what is to be done next outside
//! (ask the backend, read or write a file, convert a manifest from or to JSON);
//! the method named after what happened takes the outcome and gives the run at
//! its next stage, until it is `Done` or `Failed`.

use vstd::prelude::*;

use crate::error::Error;
use crate::index::VaultIndex;
use crate::sync::encrypt;
use crate::sync::error::SyncError;
use crate::sync::manifest::{Manifest, VaultEntry};
use crate::sync::merge::{
    apply_decisions, compute_decisions, ConflictResolution, ConflictResolver, Inquiry,
    MergeDecision, MergeKind, MergeSummary,
};
use crate::text;
use crate::vault::file::utf8_text;
use crate::vault::store::VaultStore;

verus! {

/// `sync push` outcome.
#[derive(Debug, PartialEq, Eq)]
pub struct PushSummary {
    pub pushed_count: usize,
    pub ciphertext_size: usize,
}

/// `sync pull` outcome.
#[derive(Debug, PartialEq, Eq)]
pub struct PullSummary {
    pub added: Vec<String>,
    pub updated: Vec<String>,
    pub removed: Vec<String>,
    pub conflicts: Vec<String>,
    pub kept_local: Vec<String>,
    pub skipped: Vec<String>,
}

/// `sync status` outcome.
#[derive(Debug, PartialEq, Eq)]
pub struct StatusSummary {
    pub local_only: Vec<String>,
    pub remote_only: Vec<String>,
    /// local changed vs base (remote unchanged).
    pub newer_local: Vec<String>,
    /// remote changed vs base (local unchanged).
    pub newer_remote: Vec<String>,
    pub conflicts: Vec<String>,
    pub unchanged: Vec<String>,
}

/// Sync orchestrator over a backend `B`.
pub struct SyncEngine<B> {
    pub backend: B,
}

/// What a run is for.
pub enum SyncGoal {
    /// Merge, upload, and remember the result; `message` is an optional note for
    /// backends that keep a history.
    Push { message: Option<String> },
    /// Merge into the local store and index.
    Pull,
    /// Compare.
    Status,
}

/// The outcome of a finished run.
pub enum SyncSummary {
    Push(PushSummary),
    Pull(PullSummary),
    Status(StatusSummary),
}

/// What is to be done next.
pub enum SyncStage {
    /// Ask the backend whether the remote blob exists.
    Probe,
    /// Pull the remote blob.
    Pull,
    /// Read a manifest from the decrypted remote blob.
    ParseRemote(Vec<u8>),
    /// Read the file of the base manifest.
    ReadBase,
    /// Read a manifest from the decrypted base file.
    ParseBase(Vec<u8>),
    /// Write the index back where it changed.
    PersistIndex,
    /// Write the merged manifest (`local`) as JSON.
    Render,
    /// Overwrite the remote blob.
    Upload(String),
    /// Overwrite the file of the base manifest.
    SaveBase(String),
    /// The operation succeeded.
    Done(SyncSummary),
    /// The operation failed.
    Failed(Error),
}

/// The merge that a run made: its inputs, the decisions on them, and the
/// answers to the conflicts.
pub struct SyncMerge {
    pub base: Manifest,
    pub local: Manifest,
    pub remote: Manifest,
    pub decisions: Seq<MergeDecision>,
    pub answers: Seq<Option<ConflictResolution>>,
}

/// A push, pull or status operation on its way.
pub struct SyncRun {
    pub goal: SyncGoal,
    pub passphrase: String,
    /// The local manifest; once merged, the result of the merge.
    pub local: Manifest,
    pub remote: Manifest,
    /// The merge result as JSON, once rendered.
    pub json: Vec<u8>,
    /// The size of the uploaded text, once encrypted.
    pub ciphertext_size: usize,
    /// What the merge did.
    pub report: MergeSummary,
    pub stage: SyncStage,
    /// The merge that was made.
    pub merge: Ghost<SyncMerge>,
}

/// The vault-ids that a list of decisions decides in one way, in order.
pub open spec fn ids_of_kind(decisions: Seq<MergeDecision>, kind: MergeKind) -> Seq<Seq<char>>
    decreases decisions.len(),
{
    if decisions.len() == 0 {
        Seq::empty()
    } else {
        let before = ids_of_kind(decisions.drop_last(), kind);
        if decisions.last().kind() == kind {
            before.push(decisions.last().id())
        } else {
            before
        }
    }
}

impl SyncMerge {
    /// The entries that the merge gives.
    pub open spec fn result(&self) -> Map<Seq<char>, VaultEntry> {
        crate::sync::merge::merged(
            self.base.vaults@,
            self.local.vaults@,
            self.remote.vaults@,
            self.decisions,
            self.answers,
        ).local
    }

    /// The merge is the one that the decision matrix prescribes for its inputs.
    pub open spec fn sound(&self) -> bool {
        crate::sync::merge::decides(self.base, self.local, self.remote, self.decisions)
    }
}

impl SyncStage {
    /// The stages after the merge and before the end.
    pub open spec fn after_merge(&self) -> bool {
        self is PersistIndex || self is Render || self is Upload || self is SaveBase
    }
}

impl SyncRun {
    /// What holds of a run at every stage: nothing but a sound merge is ever
    /// rendered, uploaded or remembered; a push carries only conflict-free
    /// merges; an upload belongs to a push; the uploaded text and the remembered
    /// one seal the rendered manifest; status never gets so far.
    pub open spec fn inv(&self) -> bool {
        &&& self.stage.after_merge() ==> {
            &&& self.merge@.sound()
            &&& self.local.vaults@ == self.merge@.result()
            &&& !(self.goal is Status)
            &&& self.goal is Push ==> crate::sync::merge::conflict_free(self.merge@.decisions)
                && self.merge@.answers == Seq::<Option<ConflictResolution>>::empty()
        }
        &&& self.stage matches SyncStage::Upload(armored) ==> self.goal is Push && encrypt::seals(
            armored@,
            self.passphrase@,
            self.json@,
        )
        &&& self.stage matches SyncStage::SaveBase(armored) ==> encrypt::seals(
            armored@,
            self.passphrase@,
            self.json@,
        )
    }

    /// The run is for the same goal, with the same passphrase and local
    /// manifest.
    pub open spec fn goes_on(&self, next: SyncRun) -> bool {
        next.goal == self.goal && next.passphrase == self.passphrase && next.local == self.local
    }

    /// The run at another stage.
    fn at(self, stage: SyncStage) -> (next: SyncRun)
        ensures
            next == (SyncRun { stage, ..self }),
    {
        SyncRun { stage, ..self }
    }

    /// The run, failed.
    fn failed(self, e: Error) -> (next: SyncRun)
        ensures
            next.inv(),
            self.goes_on(next),
            next.stage == SyncStage::Failed(e),
    {
        self.at(SyncStage::Failed(e))
    }

    // -- the remote manifest ------------------------------------------------
    /// The backend said whether the remote blob exists. An **absent** remote is
    /// an empty manifest; a failure to find out is a failure, never "absent".
    pub fn probed(self, present: Result<bool, Error>) -> (next: SyncRun)
        requires
            self.inv(),
            self.stage is Probe,
        ensures
            next.inv(),
            self.goes_on(next),
            match present {
                Ok(true) => next.stage is Pull,
                Ok(false) => next.stage is ReadBase && next.remote.vaults@ == Map::<
                    Seq<char>,
                    VaultEntry,
                >::empty(),
                Err(e) => next.stage == SyncStage::Failed(e),
            },
    {
        match present {
            Ok(true) => self.at(SyncStage::Pull),
            Ok(false) => SyncRun { remote: Manifest::new(), stage: SyncStage::ReadBase, ..self },
            Err(e) => self.failed(e),
        }
    }

    /// The backend handed over the remote blob, which is decrypted here.
    pub fn pulled(self, blob: Result<Vec<u8>, Error>) -> (next: SyncRun)
        requires
            self.inv(),
            self.stage is Pull,
        ensures
            next.inv(),
            self.goes_on(next),
            match blob {
                Err(e) => next.stage == SyncStage::Failed(e),
                Ok(bytes) => if vstd::utf8::valid_utf8(bytes@) {
                    match next.stage {
                        SyncStage::ParseRemote(plain) => encrypt::age_plaintext(
                            vstd::utf8::decode_utf8(bytes@),
                            self.passphrase@,
                        ) == Some(plain@),
                        SyncStage::Failed(e) => encrypt::refused_with(
                            vstd::utf8::decode_utf8(bytes@),
                            self.passphrase@,
                            e,
                        ),
                        _ => false,
                    }
                } else {
                    next.stage matches SyncStage::Failed(Error::Sync(SyncError::Manifest(message)))
                        && text::starts(message@, "non-utf8 ciphertext: "@) && exists|
                        detail: String,
                    | #[trigger]
                        crate::vault::file::utf8_refused(bytes, detail) && message@
                            == "non-utf8 ciphertext: "@ + detail@
                },
            },
    {
        let bytes = match blob {
            Ok(bytes) => bytes,
            Err(e) => {
                return self.failed(e);
            },
        };
        let armored = match utf8_text(bytes) {
            Ok(armored) => armored,
            Err(detail) => {
                let message = text::join2("non-utf8 ciphertext: ", detail.as_str());
                proof {
                    let cause = "non-utf8 ciphertext: "@;
                    crate::vault::file::refused_by_utf8(bytes, detail);
                    assert(message@.subrange(0, cause.len() as int) =~= cause);
                }
                return self.failed(Error::Sync(SyncError::Manifest(message)));
            },
        };
        let opened = encrypt::decrypt(armored.as_str(), self.passphrase.as_str());
        self.remote_opened(opened)
    }

    /// The remote blob was decrypted.
    pub fn remote_opened(self, opened: Result<Vec<u8>, Error>) -> (next: SyncRun)
        requires
            self.inv(),
            self.stage is Pull,
        ensures
            next.inv(),
            self.goes_on(next),
            match opened {
                Ok(plain) => next.stage == SyncStage::ParseRemote(plain),
                Err(e) => next.stage == SyncStage::Failed(e),
            },
    {
        match opened {
            Ok(plain) => self.at(SyncStage::ParseRemote(plain)),
            Err(e) => self.failed(e),
        }
    }

    /// The decrypted remote blob was read as a manifest, or could not be (a
    /// description of why).
    pub fn remote_parsed(self, parsed: Result<Manifest, String>) -> (next: SyncRun)
        requires
            self.inv(),
            self.stage is ParseRemote,
        ensures
            next.inv(),
            self.goes_on(next),
            match parsed {
                Ok(manifest) => if manifest.version == crate::sync::manifest::MANIFEST_VERSION {
                    next.stage is ReadBase && next.remote == manifest
                } else {
                    next.stage matches SyncStage::Failed(Error::Sync(SyncError::Manifest(message)))
                        && message@ == crate::sync::manifest::version_mismatch(manifest.version)
                },
                Err(detail) => next.stage matches SyncStage::Failed(
                    Error::Sync(SyncError::Manifest(message)),
                ) && message == detail,
            },
    {
        let manifest = match parsed {
            Ok(manifest) => manifest,
            Err(detail) => {
                return self.failed(Error::Sync(SyncError::Manifest(detail)));
            },
        };
        match manifest.accept() {
            Ok(remote) => SyncRun { remote, stage: SyncStage::ReadBase, ..self },
            Err(e) => self.failed(e),
        }
    }

    // -- the base manifest and the merge ------------------------------------
    /// The file of the base manifest was read (`None` if there is none). A
    /// missing or undecryptable base is an empty manifest - the merge then
    /// degrades to a safe 2-way union (more conflicts, no data loss).
    pub fn base_read<S: VaultStore, R: ConflictResolver>(
        self,
        file: Option<Vec<u8>>,
        store: &mut S,
        index: &mut VaultIndex,
        resolver: &mut R,
    ) -> (next: SyncRun)
        requires
            self.inv(),
            self.stage is ReadBase,
        ensures
            next.inv(),
            match next.stage {
                SyncStage::ParseBase(plain) => {
                    &&& file matches Some(bytes) && vstd::utf8::valid_utf8(bytes@)
                        && encrypt::age_plaintext(
                        vstd::utf8::decode_utf8(bytes@),
                        self.passphrase@,
                    ) == Some(plain@)
                    &&& self.goes_on(next) && next.remote == self.remote
                    &&& *final(store) == *old(store) && *final(index) == *old(index)
                        && *final(resolver) == *old(resolver)
                },
                _ => {
                    &&& match file {
                        Some(bytes) => vstd::utf8::valid_utf8(bytes@) ==> encrypt::refused(
                            vstd::utf8::decode_utf8(bytes@),
                            self.passphrase@,
                        ),
                        None => true,
                    }
                    &&& exists|base: Manifest|
                        base.vaults@ == Map::<Seq<char>, VaultEntry>::empty()
                            && #[trigger] self.merge_made(
                            base,
                            next,
                            *old(store),
                            *final(store),
                            *old(index),
                            *final(index),
                            *old(resolver),
                            *final(resolver),
                        )
                },
            },
            file is None ==> !(next.stage is ParseBase),
    {
        let bytes = match file {
            Some(bytes) => bytes,
            None => {
                return self.merge_with(Manifest::new(), store, index, resolver);
            },
        };
        let armored = match utf8_text(bytes) {
            Ok(armored) => armored,
            Err(_) => {
                return self.merge_with(Manifest::new(), store, index, resolver);
            },
        };
        let opened = encrypt::decrypt(armored.as_str(), self.passphrase.as_str());
        proof {
            if opened is Err {
                assert(encrypt::refused_with(armored@, self.passphrase@, opened->Err_0));
            }
        }
        self.base_opened(opened, store, index, resolver)
    }

    /// The file of the base manifest was decrypted. One that could not be counts
    /// as empty.
    pub fn base_opened<S: VaultStore, R: ConflictResolver>(
        self,
        opened: Result<Vec<u8>, Error>,
        store: &mut S,
        index: &mut VaultIndex,
        resolver: &mut R,
    ) -> (next: SyncRun)
        requires
            self.inv(),
            self.stage is ReadBase,
        ensures
            next.inv(),
            match opened {
                Ok(plain) => {
                    &&& next.stage == SyncStage::ParseBase(plain)
                    &&& self.goes_on(next) && next.remote == self.remote
                    &&& *final(store) == *old(store) && *final(index) == *old(index)
                        && *final(resolver) == *old(resolver)
                },
                Err(_) => !(next.stage is ParseBase) && exists|base: Manifest|
                    base.vaults@ == Map::<Seq<char>, VaultEntry>::empty()
                        && #[trigger] self.merge_made(
                        base,
                        next,
                        *old(store),
                        *final(store),
                        *old(index),
                        *final(index),
                        *old(resolver),
                        *final(resolver),
                    ),
            },
    {
        match opened {
            Ok(plain) => self.at(SyncStage::ParseBase(plain)),
            Err(_) => self.merge_with(Manifest::new(), store, index, resolver),
        }
    }

    /// The decrypted base file was read as a manifest, or could not be. One that
    /// could not, or of another version, counts as empty.
    pub fn base_parsed<S: VaultStore, R: ConflictResolver>(
        self,
        parsed: Result<Manifest, String>,
        store: &mut S,
        index: &mut VaultIndex,
        resolver: &mut R,
    ) -> (next: SyncRun)
        requires
            self.inv(),
            self.stage is ParseBase,
        ensures
            next.inv(),
            exists|base: Manifest|
                (match parsed {
                    Ok(manifest) if manifest.version == crate::sync::manifest::MANIFEST_VERSION =>
                        base == manifest,
                    _ => base.vaults@ == Map::<Seq<char>, VaultEntry>::empty(),
                }) && #[trigger] self.merge_made(
                    base,
                    next,
                    *old(store),
                    *final(store),
                    *old(index),
                    *final(index),
                    *old(resolver),
                    *final(resolver),
                ),
    {
        let base = match parsed {
            Ok(manifest) => match manifest.accept() {
                Ok(base) => base,
                Err(_) => Manifest::new(),
            },
            Err(_) => Manifest::new(),
        };
        self.merge_with(base, store, index, resolver)
    }

    /// What the merge stage does with a base: see the cases for push, pull and
    /// status.
    pub open spec fn merge_made<S: VaultStore, R: ConflictResolver>(
        &self,
        base: Manifest,
        next: SyncRun,
        store0: S,
        store1: S,
        index0: VaultIndex,
        index1: VaultIndex,
        resolver0: R,
        resolver1: R,
    ) -> bool {
        &&& next.goal == self.goal && next.passphrase == self.passphrase
        &&& match self.goal {
            SyncGoal::Push { .. } => self.push_made(base, next, store0, store1, index0, index1)
                && resolver1 == resolver0,
            SyncGoal::Pull => self.pull_made(
                base,
                next,
                store0,
                store1,
                index0,
                index1,
                resolver0,
                resolver1,
            ),
            SyncGoal::Status => self.status_made(base, next) && store1 == store0 && index1
                == index0 && resolver1 == resolver0,
        }
    }

    /// A push aborts on conflicts, naming them, and touches nothing; without
    /// conflicts the remote changes are taken over.
    pub open spec fn push_made<S: VaultStore>(
        &self,
        base: Manifest,
        next: SyncRun,
        store0: S,
        store1: S,
        index0: VaultIndex,
        index1: VaultIndex,
    ) -> bool {
        let made = next.merge@;
        let end = crate::sync::merge::merged(
            base.vaults@,
            self.local.vaults@,
            self.remote.vaults@,
            made.decisions,
            Seq::empty(),
        );
        &&& made.base == base && made.local == self.local && made.remote == self.remote
        &&& made.sound()
        &&& if crate::sync::merge::conflict_free(made.decisions) {
            match next.stage {
                SyncStage::PersistIndex => {
                    &&& next.local.vaults@ == end.local
                    &&& next.report@ == end.report
                    &&& crate::sync::merge::index_follows(index0, index1, end.effects)
                    &&& crate::sync::merge::all_stored(
                        store0.contents(),
                        store1.contents(),
                        end.effects,
                    )
                    &&& store0.reliable() ==> store1.contents()
                        == crate::sync::merge::all_stored_surely(store0.contents(), end.effects)
                    &&& crate::sync::merge::mirrors(
                        self.local.vaults@,
                        index0.ids(),
                        store0.contents(),
                    ) ==> crate::sync::merge::mirrors(
                        next.local.vaults@,
                        index1.ids(),
                        store1.contents(),
                    )
                    &&& crate::sync::merge::agrees(
                        self.local.vaults@,
                        index0.ids(),
                        store0.contents(),
                    ) ==> crate::sync::merge::agrees(
                        next.local.vaults@,
                        index1.ids(),
                        store1.contents(),
                    )
                },
                SyncStage::Failed(e) => !(store0.reliable() && index0.readable())
                    && crate::sync::merge::stopped_midway(
                    base,
                    self.local,
                    self.remote,
                    made.decisions,
                    Seq::empty(),
                    store0,
                    store1,
                    index0,
                    index1,
                    e,
                ),
                _ => false,
            }
        } else {
            &&& next.stage matches SyncStage::Failed(Error::Sync(SyncError::Conflict(ids)))
                && text::views(ids@) == ids_of_kind(made.decisions, MergeKind::Conflict)
            &&& store1 == store0 && index1 == index0
        }
    }

    /// A pull merges into what the store and the index hold now, asking the
    /// resolver about each conflict.
    pub open spec fn pull_made<S: VaultStore, R: ConflictResolver>(
        &self,
        base: Manifest,
        next: SyncRun,
        store0: S,
        store1: S,
        index0: VaultIndex,
        index1: VaultIndex,
        resolver0: R,
        resolver1: R,
    ) -> bool {
        match next.stage {
            SyncStage::PersistIndex => {
                let made = next.merge@;
                let asked = resolver1.asked().skip(resolver0.asked().len() as int);
                let end = crate::sync::merge::merged(
                    base.vaults@,
                    made.local.vaults@,
                    self.remote.vaults@,
                    made.decisions,
                    crate::sync::merge::answers_in(asked),
                );
                &&& index0.readable()
                &&& made.base == base && made.remote == self.remote && made.sound()
                &&& made.answers == crate::sync::merge::answers_in(asked)
                &&& made.local.passwords() == store0.contents().restrict(index0.ids())
                &&& asked == end.inquiries
                &&& next.local.vaults@ == end.local
                &&& next.report@ == end.report
                &&& crate::sync::merge::index_follows(index0, index1, end.effects)
                &&& crate::sync::merge::all_stored(
                    store0.contents(),
                    store1.contents(),
                    end.effects,
                )
                &&& store0.reliable() ==> store1.contents()
                    == crate::sync::merge::all_stored_surely(store0.contents(), end.effects)
                &&& crate::sync::merge::mirrors(
                    made.local.vaults@,
                    index0.ids(),
                    store0.contents(),
                ) ==> crate::sync::merge::mirrors(
                    next.local.vaults@,
                    index1.ids(),
                    store1.contents(),
                )
                &&& crate::sync::merge::agrees(
                    next.local.vaults@,
                    index1.ids(),
                    store1.contents(),
                )
            },
            SyncStage::Failed(e) => {
                ||| store1 == store0 && index1 == index0 && resolver1 == resolver0
                    && local_unavailable(e, index0, store0)
                ||| index0.readable() && exists|local: Manifest, decisions: Seq<MergeDecision>|
                    {
                        &&& !(store0.reliable() && (resolver0.decisive()
                            || crate::sync::merge::conflict_free(decisions)))
                        &&& local.passwords() == store0.contents().restrict(index0.ids())
                        &&& #[trigger] crate::sync::merge::decides(
                            base,
                            local,
                            self.remote,
                            decisions,
                        )
                        &&& crate::sync::merge::stopped_midway(
                            base,
                            local,
                            self.remote,
                            decisions,
                            resolver1.asked().skip(resolver0.asked().len() as int),
                            store0,
                            store1,
                            index0,
                            index1,
                            e,
                        )
                    }
            },
            _ => false,
        }
    }

    /// A status run is done, with the vault-ids listed by what was decided.
    pub open spec fn status_made(&self, base: Manifest, next: SyncRun) -> bool {
        let made = next.merge@;
        &&& made.base == base && made.local == self.local && made.remote == self.remote
        &&& made.sound()
        &&& next.stage matches SyncStage::Done(SyncSummary::Status(summary)) && status_of(
            summary,
            made.decisions,
        )
    }

    /// Merge with the given base.
    fn merge_with<S: VaultStore, R: ConflictResolver>(
        self,
        base: Manifest,
        store: &mut S,
        index: &mut VaultIndex,
        resolver: &mut R,
    ) -> (next: SyncRun)
        ensures
            next.inv(),
            self.merge_made(
                base,
                next,
                *old(store),
                *final(store),
                *old(index),
                *final(index),
                *old(resolver),
                *final(resolver),
            ),
    {
        match &self.goal {
            SyncGoal::Push { .. } => self.push_merge(base, store, index),
            SyncGoal::Pull => self.pull_merge(base, store, index, resolver),
            SyncGoal::Status => self.status_merge(base),
        }
    }

    fn push_merge<S: VaultStore>(
        self,
        base: Manifest,
        store: &mut S,
        index: &mut VaultIndex,
    ) -> (next: SyncRun)
        requires
            self.goal is Push,
        ensures
            next.inv(),
            next.goal == self.goal && next.passphrase == self.passphrase,
            self.push_made(base, next, *old(store), *final(store), *old(index), *final(index)),
    {
        let decisions = compute_decisions(&base, &self.local, &self.remote);
        let made: Ghost<SyncMerge> = Ghost(
            SyncMerge {
                base,
                local: self.local,
                remote: self.remote,
                decisions: decisions@,
                answers: Seq::empty(),
            },
        );
        let conflicts = conflicting_ids(&decisions);
        if conflicts.len() > 0 {
            return SyncRun {
                stage: SyncStage::Failed(Error::Sync(SyncError::Conflict(conflicts))),
                merge: made,
                ..self
            };
        }
        let mut quiet = KeepLocalResolver::new();
        let mut run = self;
        let ghost asked0 = quiet.asked();
        match apply_decisions(
            &mut run.local,
            &base,
            &run.remote,
            &decisions,
            store,
            index,
            &mut quiet,
        ) {
            Ok(report) => {
                proof {
                    let asked = quiet.asked().skip(asked0.len() as int);
                    lemma_nothing_asked(
                        base.vaults@,
                        self.local.vaults@,
                        self.remote.vaults@,
                        decisions@,
                        crate::sync::merge::answers_in(asked),
                    );
                    assert(crate::sync::merge::answers_in(asked) =~= Seq::<
                        Option<ConflictResolution>,
                    >::empty());
                }
                run.report = report;
                run.merge = made;
                run.stage = SyncStage::PersistIndex;
                run
            },
            Err(e) => {
                proof {
                    let asked = quiet.asked().skip(asked0.len() as int);
                    let (n, mid) = choose|n: int, mid: S|
                        0 <= n < decisions@.len() && #[trigger] crate::sync::merge::stopped_at(
                            base.vaults@,
                            self.local.vaults@,
                            self.remote.vaults@,
                            decisions@,
                            n,
                            asked,
                            run.local.vaults@,
                            *old(store),
                            mid,
                            *store,
                            *old(index),
                            *index,
                            e,
                        );
                    let before = decisions@.take(n);
                    assert forall|i: int| 0 <= i < before.len() implies (#[trigger] before[i]).kind()
                        != MergeKind::Conflict by {
                        assert(before[i] == decisions@[i]);
                    }
                    assert(decisions@[n].kind() != MergeKind::Conflict);
                    lemma_nothing_asked(
                        base.vaults@,
                        self.local.vaults@,
                        self.remote.vaults@,
                        before,
                        crate::sync::merge::answers_in(asked),
                    );
                    assert(asked =~= Seq::<Inquiry>::empty());
                }
                run.merge = made;
                run.stage = SyncStage::Failed(e);
                run
            },
        }
    }

    fn pull_merge<S: VaultStore, R: ConflictResolver>(
        self,
        base: Manifest,
        store: &mut S,
        index: &mut VaultIndex,
        resolver: &mut R,
    ) -> (next: SyncRun)
        requires
            self.goal is Pull,
        ensures
            next.inv(),
            next.goal == self.goal && next.passphrase == self.passphrase,
            self.pull_made(
                base,
                next,
                *old(store),
                *final(store),
                *old(index),
                *final(index),
                *old(resolver),
                *final(resolver),
            ),
    {
        let mut local = match Manifest::from_local(store, index) {
            Ok(local) => local,
            Err(e) => {
                return self.failed(e);
            },
        };
        let ghost local0 = local;
        let decisions = compute_decisions(&base, &local, &self.remote);
        let ghost asked0 = resolver.asked();
        match apply_decisions(
            &mut local,
            &base,
            &self.remote,
            &decisions,
            store,
            index,
            resolver,
        ) {
            Ok(report) => {
                let ghost asked = resolver.asked().skip(asked0.len() as int);
                let made: Ghost<SyncMerge> = Ghost(
                    SyncMerge {
                        base,
                        local: local0,
                        remote: self.remote,
                        decisions: decisions@,
                        answers: crate::sync::merge::answers_in(asked),
                    },
                );
                SyncRun { local, report, merge: made, stage: SyncStage::PersistIndex, ..self }
            },
            Err(e) => {
                assert(crate::sync::merge::stopped_midway(
                    base,
                    local0,
                    self.remote,
                    decisions@,
                    resolver.asked().skip(asked0.len() as int),
                    *old(store),
                    *store,
                    *old(index),
                    *index,
                    e,
                ));
                assert(crate::sync::merge::decides(base, local0, self.remote, decisions@));
                self.failed(e)
            },
        }
    }

    fn status_merge(self, base: Manifest) -> (next: SyncRun)
        requires
            self.goal is Status,
        ensures
            next.inv(),
            next.goal == self.goal && next.passphrase == self.passphrase,
            self.status_made(base, next),
    {
        let decisions = compute_decisions(&base, &self.local, &self.remote);
        let made: Ghost<SyncMerge> = Ghost(
            SyncMerge {
                base,
                local: self.local,
                remote: self.remote,
                decisions: decisions@,
                answers: Seq::empty(),
            },
        );
        let summary = summarize_status(&decisions);
        SyncRun { stage: SyncStage::Done(SyncSummary::Status(summary)), merge: made, ..self }
    }

    // -- after the merge ----------------------------------------------------
    /// The index was written back.
    pub fn index_persisted(self, written: Result<(), Error>) -> (next: SyncRun)
        requires
            self.inv(),
            self.stage is PersistIndex,
        ensures
            next.inv(),
            self.goes_on(next),
            next.merge == self.merge,
            next.report == self.report,
            match written {
                Ok(()) => next.stage is Render,
                Err(e) => next.stage == SyncStage::Failed(e),
            },
    {
        match written {
            Ok(()) => self.at(SyncStage::Render),
            Err(e) => self.at(SyncStage::Failed(e)),
        }
    }

    /// The merged manifest was written as JSON, or could not be (a description
    /// of why). A push uploads it encrypted; a pull remembers it as the base.
    pub fn rendered(self, json: Result<Vec<u8>, String>) -> (next: SyncRun)
        requires
            self.inv(),
            self.stage is Render,
        ensures
            next.inv(),
            self.goes_on(next),
            next.merge == self.merge,
            next.report == self.report,
            match json {
                Ok(bytes) => next.json == bytes && match next.stage {
                    SyncStage::Upload(armored) => self.goal is Push && next.ciphertext_size
                        == vstd::utf8::encode_utf8(armored@).len() as usize,
                    SyncStage::SaveBase(_) => self.goal is Pull,
                    _ => false,
                },
                Err(detail) => next.stage matches SyncStage::Failed(
                    Error::Sync(SyncError::Manifest(message)),
                ) && message == detail,
            },
    {
        let json = match json {
            Ok(json) => json,
            Err(detail) => {
                return self.at(SyncStage::Failed(Error::Sync(SyncError::Manifest(detail))));
            },
        };
        let sealed = encrypt::encrypt(json.as_slice(), self.passphrase.as_str());
        self.manifest_sealed(json, sealed)
    }

    /// The merged manifest, as JSON, was encrypted.
    pub fn manifest_sealed(self, json: Vec<u8>, sealed: Result<String, Error>) -> (next: SyncRun)
        requires
            self.inv(),
            self.stage is Render,
            sealed matches Ok(armored) ==> encrypt::seals(armored@, self.passphrase@, json@),
        ensures
            next.inv(),
            self.goes_on(next),
            next.merge == self.merge,
            next.report == self.report,
            match sealed {
                Ok(armored) => {
                    &&& next.json == json
                    &&& if self.goal is Push {
                        &&& next.stage == SyncStage::Upload(armored)
                        &&& next.ciphertext_size == vstd::utf8::encode_utf8(armored@).len() as usize
                    } else {
                        next.stage == SyncStage::SaveBase(armored)
                    }
                },
                Err(e) => next.stage == SyncStage::Failed(e),
            },
    {
        let armored = match sealed {
            Ok(armored) => armored,
            Err(e) => {
                return self.at(SyncStage::Failed(e));
            },
        };
        let ciphertext_size: usize = armored.as_str().len();
        match &self.goal {
            SyncGoal::Push { .. } => SyncRun {
                json,
                ciphertext_size,
                stage: SyncStage::Upload(armored),
                ..self
            },
            _ => SyncRun { json, stage: SyncStage::SaveBase(armored), ..self },
        }
    }

    /// The remote blob was overwritten: the merged result is now the confirmed
    /// common state on both sides, and is remembered, sealed anew.
    pub fn uploaded(self, done: Result<(), Error>) -> (next: SyncRun)
        requires
            self.inv(),
            self.stage is Upload,
        ensures
            next.inv(),
            self.goes_on(next),
            next.merge == self.merge,
            next.json == self.json,
            next.ciphertext_size == self.ciphertext_size,
            match done {
                Ok(()) => next.stage is SaveBase,
                Err(e) => next.stage == SyncStage::Failed(e),
            },
    {
        match done {
            Ok(()) => {},
            Err(e) => {
                return self.at(SyncStage::Failed(e));
            },
        }
        let sealed = encrypt::encrypt(self.json.as_slice(), self.passphrase.as_str());
        self.base_sealed(sealed)
    }

    /// The uploaded manifest was encrypted once more, to be remembered.
    pub fn base_sealed(self, sealed: Result<String, Error>) -> (next: SyncRun)
        requires
            self.inv(),
            self.stage is Upload,
            sealed matches Ok(armored) ==> encrypt::seals(
                armored@,
                self.passphrase@,
                self.json@,
            ),
        ensures
            next.inv(),
            self.goes_on(next),
            next.merge == self.merge,
            next.json == self.json,
            next.ciphertext_size == self.ciphertext_size,
            match sealed {
                Ok(armored) => next.stage == SyncStage::SaveBase(armored),
                Err(e) => next.stage == SyncStage::Failed(e),
            },
    {
        match sealed {
            Ok(armored) => self.at(SyncStage::SaveBase(armored)),
            Err(e) => self.at(SyncStage::Failed(e)),
        }
    }

    /// The base file was overwritten: the run is done.
    pub fn base_saved(self, done: Result<(), Error>) -> (next: SyncRun)
        requires
            self.inv(),
            self.stage is SaveBase,
        ensures
            next.inv(),
            self.goes_on(next),
            next.merge == self.merge,
            match done {
                Ok(()) => match next.stage {
                    SyncStage::Done(SyncSummary::Push(summary)) => {
                        &&& self.goal is Push
                        &&& summary.pushed_count == self.local.vaults@.dom().len()
                        &&& summary.ciphertext_size == self.ciphertext_size
                    },
                    SyncStage::Done(SyncSummary::Pull(summary)) => {
                        &&& self.goal is Pull
                        &&& summary.added == self.report.added && summary.updated
                            == self.report.updated
                        &&& summary.removed == self.report.removed && summary.conflicts
                            == self.report.conflicts
                        &&& summary.kept_local == self.report.kept_local && summary.skipped
                            == self.report.skipped
                    },
                    _ => false,
                },
                Err(e) => next.stage == SyncStage::Failed(e),
            },
    {
        match done {
            Ok(()) => {},
            Err(e) => {
                return self.at(SyncStage::Failed(e));
            },
        }
        match &self.goal {
            SyncGoal::Push { .. } => {
                let summary = PushSummary {
                    pushed_count: self.local.len(),
                    ciphertext_size: self.ciphertext_size,
                };
                self.at(SyncStage::Done(SyncSummary::Push(summary)))
            },
            _ => {
                let MergeSummary { added, updated, removed, kept_local, skipped, conflicts } =
                    self.report;
                let summary = PullSummary {
                    added,
                    updated,
                    removed,
                    conflicts,
                    kept_local,
                    skipped,
                };
                SyncRun {
                    goal: self.goal,
                    passphrase: self.passphrase,
                    local: self.local,
                    remote: self.remote,
                    json: self.json,
                    ciphertext_size: self.ciphertext_size,
                    report: MergeSummary::new(),
                    stage: SyncStage::Done(SyncSummary::Pull(summary)),
                    merge: self.merge,
                }
            },
        }
    }
}

/// A list of decisions without conflicts asks nothing.
proof fn lemma_nothing_asked(
    base: Map<Seq<char>, VaultEntry>,
    local: Map<Seq<char>, VaultEntry>,
    remote: Map<Seq<char>, VaultEntry>,
    decisions: Seq<MergeDecision>,
    answers: Seq<Option<ConflictResolution>>,
)
    requires
        crate::sync::merge::conflict_free(decisions),
    ensures
        crate::sync::merge::merged(base, local, remote, decisions, answers).inquiries.len() == 0,
    decreases decisions.len(),
{
    if decisions.len() > 0 {
        let before = decisions.drop_last();
        assert forall|i: int| 0 <= i < before.len() implies (#[trigger] before[i]).kind()
            != MergeKind::Conflict by {
            assert(before[i] == decisions[i]);
        }
        lemma_nothing_asked(base, local, remote, before, answers);
        assert(decisions.last() == decisions[decisions.len() - 1]);
    }
}

/// The vault-ids that need resolution, in order.
fn conflicting_ids(decisions: &Vec<MergeDecision>) -> (ids: Vec<String>)
    ensures
        text::views(ids@) == ids_of_kind(decisions@, MergeKind::Conflict),
        ids@.len() == 0 <==> crate::sync::merge::conflict_free(decisions@),
{
    let mut ids: Vec<String> = Vec::new();
    assert(decisions@.take(0) =~= Seq::<MergeDecision>::empty());
    assert(text::views(ids@) =~= Seq::<Seq<char>>::empty());
    for i in 0..decisions.len()
        invariant
            text::views(ids@) == ids_of_kind(decisions@.take(i as int), MergeKind::Conflict),
            ids@.len() == 0 <==> crate::sync::merge::conflict_free(decisions@.take(i as int)),
    {
        let ghost before = decisions@.take(i as int);
        let ghost after = decisions@.take(i + 1);
        let ghost ids0 = ids@;
        assert(after.drop_last() =~= before);
        assert(after.last() == decisions@[i as int]);
        if let MergeDecision::Conflict(id) = &decisions[i] {
            ids.push(id.clone());
            proof {
                text::lemma_views_push(ids0, *id);
                assert(after[i as int].kind() == MergeKind::Conflict);
            }
        } else {
            proof {
                if crate::sync::merge::conflict_free(before) {
                    assert forall|j: int| 0 <= j < after.len() implies (#[trigger] after[j]).kind()
                        != MergeKind::Conflict by {
                        if j < i {
                            assert(after[j] == before[j]);
                        }
                    }
                }
                if crate::sync::merge::conflict_free(after) {
                    assert forall|j: int| 0 <= j < before.len() implies (#[trigger] before[j]).kind()
                        != MergeKind::Conflict by {
                        assert(after[j] == before[j]);
                    }
                }
            }
        }
    }
    assert(decisions@.take(decisions@.len() as int) =~= decisions@);
    ids
}

/// A summary lists the vault-ids of decisions by what was decided, each list in
/// order.
pub open spec fn status_of(summary: StatusSummary, decisions: Seq<MergeDecision>) -> bool {
    &&& text::views(summary.remote_only@) == ids_of_kind(decisions, MergeKind::AddFromRemote)
    &&& text::views(summary.local_only@) == ids_of_kind(decisions, MergeKind::KeepLocal)
    &&& text::views(summary.newer_local@) == ids_of_kind(decisions, MergeKind::TakeLocal)
    &&& text::views(summary.newer_remote@) == ids_of_kind(decisions, MergeKind::TakeRemote)
    &&& text::views(summary.unchanged@) == ids_of_kind(decisions, MergeKind::Skip)
    &&& text::views(summary.conflicts@) == ids_of_kind(decisions, MergeKind::Conflict)
}

/// List the vault-ids of decisions by what was decided.
fn summarize_status(decisions: &Vec<MergeDecision>) -> (summary: StatusSummary)
    ensures
        status_of(summary, decisions@),
{
    let mut summary = StatusSummary {
        local_only: Vec::new(),
        remote_only: Vec::new(),
        newer_local: Vec::new(),
        newer_remote: Vec::new(),
        conflicts: Vec::new(),
        unchanged: Vec::new(),
    };
    assert(decisions@.take(0) =~= Seq::<MergeDecision>::empty());
    assert(text::views(Seq::<String>::empty()) =~= Seq::<Seq<char>>::empty());
    for i in 0..decisions.len()
        invariant
            status_of(summary, decisions@.take(i as int)),
    {
        let ghost before = decisions@.take(i as int);
        let ghost after = decisions@.take(i + 1);
        assert(after.drop_last() =~= before);
        assert(after.last() == decisions@[i as int]);
        match &decisions[i] {
            MergeDecision::AddFromRemote(id) => {
                proof {
                    text::lemma_views_push(summary.remote_only@, *id);
                }
                summary.remote_only.push(id.clone());
            },
            MergeDecision::KeepLocal(id) => {
                proof {
                    text::lemma_views_push(summary.local_only@, *id);
                }
                summary.local_only.push(id.clone());
            },
            MergeDecision::TakeLocal(id) => {
                proof {
                    text::lemma_views_push(summary.newer_local@, *id);
                }
                summary.newer_local.push(id.clone());
            },
            MergeDecision::TakeRemote(id) => {
                proof {
                    text::lemma_views_push(summary.newer_remote@, *id);
                }
                summary.newer_remote.push(id.clone());
            },
            MergeDecision::Skip(id) => {
                proof {
                    text::lemma_views_push(summary.unchanged@, *id);
                }
                summary.unchanged.push(id.clone());
            },
            MergeDecision::Conflict(id) => {
                proof {
                    text::lemma_views_push(summary.conflicts@, *id);
                }
                summary.conflicts.push(id.clone());
            },
        }
    }
    assert(decisions@.take(decisions@.len() as int) =~= decisions@);
    summary
}

/// A resolver that keeps local on any conflict. Used by `push` (which aborts
/// before reaching the resolver anyway) and as a non-interactive default where
/// one is required.
pub struct KeepLocalResolver {
    pub inquiries: Ghost<Seq<Inquiry>>,
}

impl KeepLocalResolver {
    /// A resolver that was asked nothing yet.
    #[must_use]
    pub fn new() -> (r: Self)
        ensures
            r.asked() == Seq::<Inquiry>::empty(),
    {
        KeepLocalResolver { inquiries: Ghost(Seq::empty()) }
    }
}

impl ConflictResolver for KeepLocalResolver {
    open spec fn asked(&self) -> Seq<Inquiry> {
        self.inquiries@
    }

    open spec fn decisive(&self) -> bool {
        true
    }

    fn resolve(
        &mut self,
        vault_id: &str,
        base: Option<&VaultEntry>,
        local: Option<&VaultEntry>,
        remote: Option<&VaultEntry>,
    ) -> (r: Result<ConflictResolution, Error>)
        ensures
            r == Ok::<ConflictResolution, Error>(ConflictResolution::KeepLocal),
    {
        proof {
            self.inquiries@ = self.inquiries@.push(
                Inquiry {
                    vault_id: vault_id@,
                    base: crate::sync::merge::owned_entry(base),
                    local: crate::sync::merge::owned_entry(local),
                    remote: crate::sync::merge::owned_entry(remote),
                    answer: Some(ConflictResolution::KeepLocal),
                    failure: None,
                },
            );
        }
        Ok(ConflictResolution::KeepLocal)
    }
}

impl<B> SyncEngine<B> {
    /// An engine over `backend`.
    #[must_use]
    pub fn new(backend: B) -> (r: Self)
        ensures
            r.backend == backend,
    {
        SyncEngine { backend }
    }

    /// A read-merge-write push of what the store and the index hold.
    pub fn push<S: VaultStore>(
        &self,
        store: &S,
        index: &VaultIndex,
        passphrase: &str,
        message: Option<String>,
    ) -> (run: SyncRun)
        ensures
            run.inv(),
            run.goal == (SyncGoal::Push { message }),
            run.passphrase@ == passphrase@,
            started_with_local(run, *store, *index),
    {
        start_with_local(SyncGoal::Push { message }, passphrase, store, index)
    }

    /// A pull with conflict resolution.
    pub fn pull(&self, passphrase: &str) -> (run: SyncRun)
        ensures
            run.inv(),
            run.goal is Pull,
            run.passphrase@ == passphrase@,
            run.stage is Probe,
    {
        start(SyncGoal::Pull, passphrase, Manifest::new())
    }

    /// A comparison of local and remote (3-way) that modifies nothing.
    pub fn status<S: VaultStore>(&self, store: &S, index: &VaultIndex, passphrase: &str) -> (run:
        SyncRun)
        ensures
            run.inv(),
            run.goal is Status,
            run.passphrase@ == passphrase@,
            started_with_local(run, *store, *index),
    {
        start_with_local(SyncGoal::Status, passphrase, store, index)
    }
}

/// The error where the local manifest cannot be had: that of an unusable index,
/// or what a store that can fail answered, other than "not found", to the read of
/// an indexed id.
pub open spec fn local_unavailable<S: VaultStore>(e: Error, index: VaultIndex, store: S) -> bool {
    ||| !index.readable() && index.failure(e)
    ||| index.readable() && !store.reliable() && !e.is_not_found() && exists|id: &str|
        index.ids().contains(id@) && #[trigger] call_ensures(S::get, (&store, id), Err(e))
}

/// A run that starts from the local manifest, or fails where there is none.
pub open spec fn started_with_local<S: VaultStore>(
    run: SyncRun,
    store: S,
    index: VaultIndex,
) -> bool {
    match run.stage {
        SyncStage::Probe => index.readable() && run.local.passwords()
            == store.contents().restrict(index.ids()),
        SyncStage::Failed(e) => local_unavailable(e, index, store),
        _ => false,
    }
}

fn start(goal: SyncGoal, passphrase: &str, local: Manifest) -> (run: SyncRun)
    ensures
        run.inv(),
        run.goal == goal,
        run.passphrase@ == passphrase@,
        run.local == local,
        run.stage is Probe,
{
    SyncRun {
        goal,
        passphrase: passphrase.to_owned(),
        local,
        remote: Manifest::new(),
        json: Vec::new(),
        ciphertext_size: 0,
        report: MergeSummary::new(),
        stage: SyncStage::Probe,
        merge: Ghost(arbitrary()),
    }
}

fn start_with_local<S: VaultStore>(
    goal: SyncGoal,
    passphrase: &str,
    store: &S,
    index: &VaultIndex,
) -> (run: SyncRun)
    ensures
        run.inv(),
        run.goal == goal,
        run.passphrase@ == passphrase@,
        started_with_local(run, *store, *index),
{
    match Manifest::from_local(store, index) {
        Ok(local) => start(goal, passphrase, local),
        Err(e) => start(goal, passphrase, Manifest::new()).failed(e),
    }
}

// ---------------------------------------------------------------------------
// Laws
// ---------------------------------------------------------------------------
/// The sides cannot be merged at `id` without an answer: both have a value of
/// their own, neither that of the base; or the base had one that a single side
/// still has.
pub open spec fn conflicting(
    base: Map<Seq<char>, VaultEntry>,
    local: Map<Seq<char>, VaultEntry>,
    remote: Map<Seq<char>, VaultEntry>,
    id: Seq<char>,
) -> bool {
    if local.contains_key(id) && remote.contains_key(id) {
        &&& local[id].password@ != remote[id].password@
        &&& base.contains_key(id) ==> local[id].password@ != base[id].password@
            && remote[id].password@ != base[id].password@
    } else {
        base.contains_key(id) && (local.contains_key(id) || remote.contains_key(id))
    }
}

/// All three have `id`, the other side still has the base value, and the first has
/// another.
pub open spec fn changed_in_first(
    base: Map<Seq<char>, VaultEntry>,
    first: Map<Seq<char>, VaultEntry>,
    other: Map<Seq<char>, VaultEntry>,
    id: Seq<char>,
) -> bool {
    &&& base.contains_key(id) && first.contains_key(id) && other.contains_key(id)
    &&& other[id].password@ == base[id].password@
    &&& first[id].password@ != base[id].password@
}

/// Only `first` has `id`.
pub open spec fn only_in_first(
    base: Map<Seq<char>, VaultEntry>,
    first: Map<Seq<char>, VaultEntry>,
    other: Map<Seq<char>, VaultEntry>,
    id: Seq<char>,
) -> bool {
    first.contains_key(id) && !other.contains_key(id) && !base.contains_key(id)
}

/// The two sides agree on `id`: they have the same value, or both lost it.
pub open spec fn agreed(
    base: Map<Seq<char>, VaultEntry>,
    local: Map<Seq<char>, VaultEntry>,
    remote: Map<Seq<char>, VaultEntry>,
    id: Seq<char>,
) -> bool {
    if local.contains_key(id) {
        remote.contains_key(id) && local[id].password@ == remote[id].password@
    } else {
        base.contains_key(id) && !remote.contains_key(id)
    }
}

/// The ids of one kind are those that were so decided.
proof fn lemma_ids_of_kind_members(
    decisions: Seq<MergeDecision>,
    kind: MergeKind,
    id: Seq<char>,
)
    ensures
        ids_of_kind(decisions, kind).contains(id) <==> exists|i: int|
            0 <= i < decisions.len() && (#[trigger] decisions[i]).kind() == kind
                && decisions[i].id() == id,
    decreases decisions.len(),
{
    let ids = ids_of_kind(decisions, kind);
    if decisions.len() > 0 {
        let n = decisions.len() - 1;
        let before = decisions.drop_last();
        let ids0 = ids_of_kind(before, kind);
        lemma_ids_of_kind_members(before, kind, id);
        assert(decisions.last() == decisions[n]);
        if exists|i: int|
            0 <= i < before.len() && (#[trigger] before[i]).kind() == kind && before[i].id() == id {
            let i = choose|i: int|
                0 <= i < before.len() && (#[trigger] before[i]).kind() == kind && before[i].id()
                    == id;
            assert(decisions[i] == before[i]);
        }
        if exists|i: int|
            0 <= i < decisions.len() && (#[trigger] decisions[i]).kind() == kind
                && decisions[i].id() == id {
            let i = choose|i: int|
                0 <= i < decisions.len() && (#[trigger] decisions[i]).kind() == kind
                    && decisions[i].id() == id;
            if i < n {
                assert(before[i] == decisions[i]);
                let j = ids0.index_of(id);
                assert(ids[j] == id);
            } else {
                assert(ids.last() == id);
            }
        }
        if ids.contains(id) {
            let j = ids.index_of(id);
            if j < ids0.len() {
                assert(ids0[j] == id);
            }
        }
    }
}

/// The ids of one kind are in the order of the decisions.
proof fn lemma_ids_of_kind_sorted(decisions: Seq<MergeDecision>, kind: MergeKind)
    requires
        text::strictly_sorted(crate::sync::merge::decision_ids(decisions)),
    ensures
        text::strictly_sorted(ids_of_kind(decisions, kind)),
    decreases decisions.len(),
{
    if decisions.len() > 0 {
        let n = decisions.len() - 1;
        let before = decisions.drop_last();
        let all = crate::sync::merge::decision_ids(decisions);
        let all0 = crate::sync::merge::decision_ids(before);
        assert(all0 =~= all.take(n));
        assert forall|i: int, j: int| 0 <= i < j < all0.len() implies text::text_less(
            #[trigger] all0[i],
            #[trigger] all0[j],
        ) by {
            assert(text::text_less(all[i], all[j]));
        }
        lemma_ids_of_kind_sorted(before, kind);
        let ids0 = ids_of_kind(before, kind);
        if decisions.last().kind() == kind {
            let ids = ids_of_kind(decisions, kind);
            assert forall|i: int, j: int| 0 <= i < j < ids.len() implies text::text_less(
                #[trigger] ids[i],
                #[trigger] ids[j],
            ) by {
                if j < ids0.len() {
                    assert(text::text_less(ids0[i], ids0[j]));
                } else {
                    assert(ids0.contains(ids0[i]));
                    lemma_ids_of_kind_members(before, kind, ids0[i]);
                    let k = choose|k: int|
                        0 <= k < before.len() && (#[trigger] before[k]).kind() == kind
                            && before[k].id() == ids0[i];
                    assert(all[k] == ids0[i]);
                    assert(all[n] == ids[j]);
                    assert(text::text_less(all[k], all[n]));
                }
            }
        }
    }
}

/// Where each vault-id of a sound list of decisions stands.
proof fn lemma_kinds_tell(
    base: Manifest,
    local: Manifest,
    remote: Manifest,
    decisions: Seq<MergeDecision>,
    id: Seq<char>,
)
    requires
        crate::sync::merge::decides(base, local, remote, decisions),
    ensures
        ({
            let (b, l, r) = (base.vaults@, local.vaults@, remote.vaults@);
            &&& ids_of_kind(decisions, MergeKind::KeepLocal).contains(id) <==> only_in_first(
                b,
                l,
                r,
                id,
            )
            &&& ids_of_kind(decisions, MergeKind::AddFromRemote).contains(id) <==> only_in_first(
                b,
                r,
                l,
                id,
            )
            &&& ids_of_kind(decisions, MergeKind::TakeLocal).contains(id) <==> changed_in_first(
                b,
                l,
                r,
                id,
            )
            &&& ids_of_kind(decisions, MergeKind::TakeRemote).contains(id) <==> changed_in_first(
                b,
                r,
                l,
                id,
            )
            &&& ids_of_kind(decisions, MergeKind::Conflict).contains(id) <==> conflicting(
                b,
                l,
                r,
                id,
            )
            &&& ids_of_kind(decisions, MergeKind::Skip).contains(id) <==> agreed(b, l, r, id)
        }),
{
    let (b, l, r) = (base.vaults@, local.vaults@, remote.vaults@);
    let ids = crate::sync::merge::decision_ids(decisions);
    lemma_ids_of_kind_members(decisions, MergeKind::KeepLocal, id);
    lemma_ids_of_kind_members(decisions, MergeKind::AddFromRemote, id);
    lemma_ids_of_kind_members(decisions, MergeKind::TakeLocal, id);
    lemma_ids_of_kind_members(decisions, MergeKind::TakeRemote, id);
    lemma_ids_of_kind_members(decisions, MergeKind::Conflict, id);
    lemma_ids_of_kind_members(decisions, MergeKind::Skip, id);
    if b.contains_key(id) || l.contains_key(id) || r.contains_key(id) {
        assert(ids.contains(id));
        let i = ids.index_of(id);
        assert(decisions[i].id() == id);
    } else {
        assert forall|i: int| 0 <= i < decisions.len() implies (#[trigger] decisions[i]).id()
            != id by {
            assert(ids[i] == decisions[i].id());
            assert(ids.contains(ids[i]));
        }
    }
}

/// A status tells, of every vault-id, where it stands, and of no other: what only
/// one side has, what one side alone changed since the last sync, what both
/// changed or one side lost, and what is the same on both. Each list is in
/// ascending order, and nothing is modified.
pub proof fn status_tells_where_each_id_stands<S: VaultStore, R: ConflictResolver>(
    run: SyncRun,
    base: Manifest,
    next: SyncRun,
    store0: S,
    store1: S,
    index0: VaultIndex,
    index1: VaultIndex,
    resolver0: R,
    resolver1: R,
    id: Seq<char>,
)
    requires
        run.goal is Status,
        run.merge_made(base, next, store0, store1, index0, index1, resolver0, resolver1),
    ensures
        store1 == store0 && index1 == index0 && resolver1 == resolver0,
        next.stage matches SyncStage::Done(SyncSummary::Status(summary)) && {
            let (b, l, r) = (base.vaults@, run.local.vaults@, run.remote.vaults@);
            &&& text::views(summary.local_only@).contains(id) <==> only_in_first(b, l, r, id)
            &&& text::views(summary.remote_only@).contains(id) <==> only_in_first(b, r, l, id)
            &&& text::views(summary.newer_local@).contains(id) <==> changed_in_first(b, l, r, id)
            &&& text::views(summary.newer_remote@).contains(id) <==> changed_in_first(b, r, l, id)
            &&& text::views(summary.conflicts@).contains(id) <==> conflicting(b, l, r, id)
            &&& text::views(summary.unchanged@).contains(id) <==> agreed(b, l, r, id)
            &&& text::strictly_sorted(text::views(summary.local_only@))
            &&& text::strictly_sorted(text::views(summary.remote_only@))
            &&& text::strictly_sorted(text::views(summary.newer_local@))
            &&& text::strictly_sorted(text::views(summary.newer_remote@))
            &&& text::strictly_sorted(text::views(summary.conflicts@))
            &&& text::strictly_sorted(text::views(summary.unchanged@))
        },
{
    let decisions = next.merge@.decisions;
    lemma_kinds_tell(base, run.local, run.remote, decisions, id);
    lemma_ids_of_kind_sorted(decisions, MergeKind::KeepLocal);
    lemma_ids_of_kind_sorted(decisions, MergeKind::AddFromRemote);
    lemma_ids_of_kind_sorted(decisions, MergeKind::TakeLocal);
    lemma_ids_of_kind_sorted(decisions, MergeKind::TakeRemote);
    lemma_ids_of_kind_sorted(decisions, MergeKind::Conflict);
    lemma_ids_of_kind_sorted(decisions, MergeKind::Skip);
}

/// A status leaves no vault-id out and lists none twice: each one that the base
/// or a side has is in exactly one way `only_in_first`, `changed_in_first`,
/// `conflicting` or `agreed`.
pub proof fn every_id_stands_somewhere(
    b: Map<Seq<char>, VaultEntry>,
    l: Map<Seq<char>, VaultEntry>,
    r: Map<Seq<char>, VaultEntry>,
    id: Seq<char>,
)
    ensures
        b.contains_key(id) || l.contains_key(id) || r.contains_key(id) <==> {
            ||| only_in_first(b, l, r, id)
            ||| only_in_first(b, r, l, id)
            ||| changed_in_first(b, l, r, id)
            ||| changed_in_first(b, r, l, id)
            ||| conflicting(b, l, r, id)
            ||| agreed(b, l, r, id)
        },
        !(only_in_first(b, l, r, id) && only_in_first(b, r, l, id)),
        only_in_first(b, l, r, id) || only_in_first(b, r, l, id) ==> !changed_in_first(b, l, r, id)
            && !changed_in_first(b, r, l, id) && !conflicting(b, l, r, id) && !agreed(b, l, r, id),
        changed_in_first(b, l, r, id) ==> !changed_in_first(b, r, l, id),
        changed_in_first(b, l, r, id) || changed_in_first(b, r, l, id) ==> !conflicting(
            b,
            l,
            r,
            id,
        ) && !agreed(b, l, r, id),
        conflicting(b, l, r, id) ==> !agreed(b, l, r, id),
{
}

/// A push never picks a side: where a vault-id conflicts it fails, naming
/// exactly those that do, in ascending order, and touches neither the store nor
/// the index. Where none does, what goes on to be uploaded loses nothing and
/// takes the changed side, and the store and the index have it too; the one way
/// for it not to go on is that the store or the index can fail.
pub proof fn push_never_picks_a_side<S: VaultStore, R: ConflictResolver>(
    run: SyncRun,
    base: Manifest,
    next: SyncRun,
    store0: S,
    store1: S,
    index0: VaultIndex,
    index1: VaultIndex,
    resolver0: R,
    resolver1: R,
    id: Seq<char>,
)
    requires
        run.goal is Push,
        run.merge_made(base, next, store0, store1, index0, index1, resolver0, resolver1),
        run.local.passwords() == store0.contents().restrict(index0.ids()),
    ensures
        ({
            let (b, l, r) = (base.vaults@, run.local.vaults@, run.remote.vaults@);
            if exists|k: Seq<char>| conflicting(b, l, r, k) {
                &&& next.stage matches SyncStage::Failed(Error::Sync(SyncError::Conflict(ids))) && {
                    &&& text::views(ids@).contains(id) <==> conflicting(b, l, r, id)
                    &&& text::strictly_sorted(text::views(ids@))
                }
                &&& store1 == store0 && index1 == index0
            } else {
                match next.stage {
                    SyncStage::PersistIndex => {
                        let end = next.local.vaults@;
                        &&& crate::sync::merge::merges_cleanly(b, l, r, end)
                        &&& end.contains_key(id) <==> index1.ids().contains(id)
                            && store1.contents().contains_key(id)
                        &&& end.contains_key(id) ==> store1.contents()[id] == end[id].password@
                    },
                    SyncStage::Failed(e) => !(store0.reliable() && index0.readable()),
                    _ => false,
                }
            }
        }),
{
    let decisions = next.merge@.decisions;
    let (b, l, r) = (base.vaults@, run.local.vaults@, run.remote.vaults@);
    lemma_kinds_tell(base, run.local, run.remote, decisions, id);
    lemma_ids_of_kind_sorted(decisions, MergeKind::Conflict);
    lemma_conflict_free(base, run.local, run.remote, decisions);
    if crate::sync::merge::conflict_free(decisions) && next.stage is PersistIndex {
        assert forall|i: int| 0 <= i < decisions.len() implies !((
        #[trigger] decisions[i]) is Conflict) by {
            assert(decisions[i].kind() != MergeKind::Conflict);
        }
        crate::sync::merge::conflict_free_merge_is_clean(
            base,
            run.local,
            run.remote,
            decisions,
            Seq::empty(),
        );
        lemma_agreement_at(next.local.vaults@, index1.ids(), store1.contents(), id);
    }
}

/// A list of decisions is free of conflicts where no vault-id conflicts.
proof fn lemma_conflict_free(
    base: Manifest,
    local: Manifest,
    remote: Manifest,
    decisions: Seq<MergeDecision>,
)
    requires
        crate::sync::merge::decides(base, local, remote, decisions),
    ensures
        crate::sync::merge::conflict_free(decisions) <==> !exists|k: Seq<char>|
            conflicting(base.vaults@, local.vaults@, remote.vaults@, k),
{
    let (b, l, r) = (base.vaults@, local.vaults@, remote.vaults@);
    if !crate::sync::merge::conflict_free(decisions) {
        let i = choose|i: int|
            0 <= i < decisions.len() && (#[trigger] decisions[i]).kind() == MergeKind::Conflict;
        lemma_ids_of_kind_members(decisions, MergeKind::Conflict, decisions[i].id());
        lemma_kinds_tell(base, local, remote, decisions, decisions[i].id());
        assert(conflicting(b, l, r, decisions[i].id()));
    }
    if exists|k: Seq<char>| conflicting(b, l, r, k) {
        let k = choose|k: Seq<char>| conflicting(b, l, r, k);
        lemma_kinds_tell(base, local, remote, decisions, k);
        lemma_ids_of_kind_members(decisions, MergeKind::Conflict, k);
    }
}

/// What agreement means for one vault-id.
proof fn lemma_agreement_at(
    local: Map<Seq<char>, VaultEntry>,
    ids: Set<Seq<char>>,
    contents: Map<Seq<char>, Seq<char>>,
    id: Seq<char>,
)
    requires
        crate::sync::merge::agrees(local, ids, contents),
    ensures
        local.contains_key(id) <==> ids.contains(id) && contents.contains_key(id),
        local.contains_key(id) ==> contents[id] == local[id].password@,
{
    let passwords = crate::sync::manifest::entry_passwords(local);
    assert(passwords.contains_key(id) == contents.restrict(ids).contains_key(id));
    if local.contains_key(id) {
        assert(passwords[id] == contents.restrict(ids)[id]);
    }
}

/// What the report of a merge tells of the decisions.
proof fn lemma_report_tells(
    base: Map<Seq<char>, VaultEntry>,
    local: Map<Seq<char>, VaultEntry>,
    remote: Map<Seq<char>, VaultEntry>,
    decisions: Seq<MergeDecision>,
    answers: Seq<Option<ConflictResolution>>,
    id: Seq<char>,
)
    ensures
        ({
            let end = crate::sync::merge::merged(base, local, remote, decisions, answers);
            &&& end.report.conflicts == ids_of_kind(decisions, MergeKind::Conflict)
            &&& end.report.skipped == ids_of_kind(decisions, MergeKind::Skip)
            &&& end.report.kept_local.contains(id) <==> ids_of_kind(
                decisions,
                MergeKind::KeepLocal,
            ).contains(id) || ids_of_kind(decisions, MergeKind::TakeLocal).contains(id)
            &&& end.inquiries.map_values(|q: Inquiry| q.vault_id) == ids_of_kind(
                decisions,
                MergeKind::Conflict,
            )
            &&& crate::sync::merge::conflict_free(decisions) ==> {
                &&& end.report.added == ids_of_kind(decisions, MergeKind::AddFromRemote)
                &&& end.report.updated == ids_of_kind(decisions, MergeKind::TakeRemote)
                &&& end.report.removed.len() == 0
            }
        }),
    decreases decisions.len(),
{
    let end = crate::sync::merge::merged(base, local, remote, decisions, answers);
    let asked = end.inquiries.map_values(|q: Inquiry| q.vault_id);
    if decisions.len() > 0 {
        let before = decisions.drop_last();
        let last = decisions.last();
        assert(last == decisions[decisions.len() - 1]);
        if crate::sync::merge::conflict_free(decisions) {
            assert forall|i: int| 0 <= i < before.len() implies (#[trigger] before[i]).kind()
                != MergeKind::Conflict by {
                assert(before[i] == decisions[i]);
            }
        }
        let earlier = if last.kind() == MergeKind::Conflict {
            answers.drop_last()
        } else {
            answers
        };
        lemma_report_tells(base, local, remote, before, earlier, id);
        let prev = crate::sync::merge::merged(base, local, remote, before, earlier);
        let asked0 = prev.inquiries.map_values(|q: Inquiry| q.vault_id);
        if last.kind() == MergeKind::Conflict {
            assert(asked =~= asked0.push(last.id()));
        } else {
            assert(asked =~= asked0);
        }
        lemma_push_contains(prev.report.kept_local, last.id(), id);
        lemma_push_contains(ids_of_kind(before, MergeKind::KeepLocal), last.id(), id);
        lemma_push_contains(ids_of_kind(before, MergeKind::TakeLocal), last.id(), id);
    } else {
        assert(asked =~= Seq::<Seq<char>>::empty());
    }
}

/// What is in a list with one more element.
proof fn lemma_push_contains(ids: Seq<Seq<char>>, last: Seq<char>, id: Seq<char>)
    ensures
        ids.push(last).contains(id) <==> ids.contains(id) || last == id,
{
    let more = ids.push(last);
    assert(more[ids.len() as int] == last);
    if ids.contains(id) {
        assert(more[ids.index_of(id)] == id);
    }
    if more.contains(id) {
        let i = more.index_of(id);
        if i < ids.len() {
            assert(ids[i] == id);
        }
    }
}

/// A pull asks about the vault-ids that conflict, each once and in ascending
/// order, and about no other. It reports those, what is the same on both sides,
/// and what local keeps because it alone has or changed it; where nothing
/// conflicts it also reports what it added and updated, it has removed nothing,
/// and the merge loses nothing and takes the changed side. Afterwards the store
/// and the index have what the merged manifest has.
pub proof fn pull_asks_about_conflicts_only<S: VaultStore, R: ConflictResolver>(
    run: SyncRun,
    base: Manifest,
    next: SyncRun,
    store0: S,
    store1: S,
    index0: VaultIndex,
    index1: VaultIndex,
    resolver0: R,
    resolver1: R,
    id: Seq<char>,
)
    requires
        run.goal is Pull,
        run.merge_made(base, next, store0, store1, index0, index1, resolver0, resolver1),
        next.stage is PersistIndex,
    ensures
        ({
            let (b, l, r) = (base.vaults@, next.merge@.local.vaults@, run.remote.vaults@);
            let asked = resolver1.asked().skip(resolver0.asked().len() as int).map_values(
                |q: Inquiry| q.vault_id,
            );
            let end = next.local.vaults@;
            &&& l.contains_key(id) <==> index0.ids().contains(id)
                && store0.contents().contains_key(id)
            &&& l.contains_key(id) ==> l[id].password@ == store0.contents()[id]
            &&& asked.contains(id) <==> conflicting(b, l, r, id)
            &&& text::strictly_sorted(asked)
            &&& text::views(next.report.conflicts@) == asked
            &&& text::views(next.report.skipped@).contains(id) <==> agreed(b, l, r, id)
            &&& text::views(next.report.kept_local@).contains(id) <==> only_in_first(b, l, r, id)
                || changed_in_first(b, l, r, id)
            &&& !(exists|k: Seq<char>| conflicting(b, l, r, k)) ==> {
                &&& text::views(next.report.added@).contains(id) <==> only_in_first(b, r, l, id)
                &&& text::views(next.report.updated@).contains(id) <==> changed_in_first(
                    b,
                    r,
                    l,
                    id,
                )
                &&& next.report.removed@.len() == 0
                &&& crate::sync::merge::merges_cleanly(b, l, r, end)
            }
            &&& end.contains_key(id) <==> index1.ids().contains(id)
                && store1.contents().contains_key(id)
            &&& end.contains_key(id) ==> store1.contents()[id] == end[id].password@
        }),
{
    let decisions = next.merge@.decisions;
    let local = next.merge@.local;
    let (b, l, r) = (base.vaults@, local.vaults@, run.remote.vaults@);
    let answers = next.merge@.answers;
    lemma_kinds_tell(base, local, run.remote, decisions, id);
    lemma_ids_of_kind_sorted(decisions, MergeKind::Conflict);
    lemma_conflict_free(base, local, run.remote, decisions);
    lemma_report_tells(b, l, r, decisions, answers, id);
    lemma_agreement_at(l, index0.ids(), store0.contents(), id);
    lemma_agreement_at(next.local.vaults@, index1.ids(), store1.contents(), id);
    assert(text::views(next.report.removed@).len() == next.report.removed@.len());
    if crate::sync::merge::conflict_free(decisions) {
        assert forall|i: int| 0 <= i < decisions.len() implies !((
        #[trigger] decisions[i]) is Conflict) by {
            assert(decisions[i].kind() != MergeKind::Conflict);
        }
        crate::sync::merge::conflict_free_merge_is_clean(
            base,
            local,
            run.remote,
            decisions,
            answers,
        );
    }
}

/// A push and a status start from what is stored: the local manifest has exactly the indexed
/// ids that the store holds, each with its password. All three run under the given
/// passphrase, and a push carries the given note.
pub proof fn runs_start_from_what_is_stored<B, S: VaultStore>(
    engine: &SyncEngine<B>,
    store: &S,
    index: &VaultIndex,
    passphrase: &str,
    message: Option<String>,
    pushing: SyncRun,
    comparing: SyncRun,
    pulling: SyncRun,
    id: Seq<char>,
)
    requires
        call_ensures(
            SyncEngine::<B>::push::<S>,
            (engine, store, index, passphrase, message),
            pushing,
        ),
        call_ensures(SyncEngine::<B>::status::<S>, (engine, store, index, passphrase), comparing),
        call_ensures(SyncEngine::<B>::pull, (engine, passphrase), pulling),
        store.reliable(),
    ensures
        pushing.goal == (SyncGoal::Push { message }),
        comparing.goal is Status && pulling.goal is Pull,
        pushing.passphrase@ == passphrase@ && comparing.passphrase@ == passphrase@
            && pulling.passphrase@ == passphrase@,
        pulling.stage is Probe,
        pushing.stage is Probe <==> index.readable(),
        comparing.stage is Probe <==> index.readable(),
        index.readable() ==> {
            &&& pushing.local.vaults@.contains_key(id) <==> index.ids().contains(id)
                && store.contents().contains_key(id)
            &&& pushing.local.vaults@.contains_key(id) ==> pushing.local.vaults@[id].password@
                == store.contents()[id]
            &&& comparing.local.vaults@.contains_key(id) <==> index.ids().contains(id)
                && store.contents().contains_key(id)
            &&& comparing.local.vaults@.contains_key(id) ==> comparing.local.vaults@[id].password@
                == store.contents()[id]
        },
{
    if index.readable() {
        lemma_agreement_at(pushing.local.vaults@, index.ids(), store.contents(), id);
        lemma_agreement_at(comparing.local.vaults@, index.ids(), store.contents(), id);
    }
}

/// A pull ends as the user answered: of a vault-id that conflicted, the index and the store
/// have the local value where that was chosen, the remote one (or none) where that was, and
/// the local one, or else the remote one, where both were. Of one that did not conflict they
/// have the remote value where remote alone has or changed it, and the local one otherwise.
/// Left out are vault-ids under which a remote value is put beside a local one.
pub proof fn pull_ends_as_answered<S: VaultStore, R: ConflictResolver>(
    run: SyncRun,
    base: Manifest,
    next: SyncRun,
    store0: S,
    store1: S,
    index0: VaultIndex,
    index1: VaultIndex,
    resolver0: R,
    resolver1: R,
    id: Seq<char>,
    k: int,
)
    requires
        run.goal is Pull,
        run.merge_made(base, next, store0, store1, index0, index1, resolver0, resolver1),
        next.stage is PersistIndex,
        forall|other: Seq<char>|
            base.vaults@.contains_key(other) || next.merge@.local.vaults@.contains_key(other)
                || run.remote.vaults@.contains_key(other) ==> #[trigger] (other + ".remote"@) != id,
    ensures
        ({
            let (b, l, r) = (base.vaults@, next.merge@.local.vaults@, run.remote.vaults@);
            let asked = resolver1.asked().skip(resolver0.asked().len() as int);
            let there = index1.ids().contains(id) && store1.contents().contains_key(id);
            let as_local = there == l.contains_key(id) && (l.contains_key(id)
                ==> store1.contents()[id] == l[id].password@);
            let as_remote = there == r.contains_key(id) && (r.contains_key(id)
                ==> store1.contents()[id] == r[id].password@);
            &&& !conflicting(b, l, r, id) ==> if only_in_first(b, r, l, id) || changed_in_first(
                b,
                r,
                l,
                id,
            ) {
                as_remote
            } else {
                as_local
            }
            &&& 0 <= k < asked.len() && asked[k].vault_id == id ==> match asked[k].answer {
                Some(ConflictResolution::KeepLocal) => as_local,
                Some(ConflictResolution::KeepRemote) => as_remote,
                Some(ConflictResolution::KeepBoth) => if l.contains_key(id) {
                    as_local
                } else {
                    as_remote
                },
                None => true,
            }
        }),
{
    let made = next.merge@;
    let decisions = made.decisions;
    let (b, l, r) = (base.vaults@, made.local.vaults@, run.remote.vaults@);
    let ids = crate::sync::merge::decision_ids(decisions);
    assert forall|i: int, j: int| 0 <= i < j < decisions.len() implies (
    #[trigger] decisions[i]).id() != (#[trigger] decisions[j]).id() by {
        assert(ids[i] == decisions[i].id() && ids[j] == decisions[j].id());
        text::text_less_asymmetric(ids[i], ids[j]);
    }
    assert forall|i: int| 0 <= i < decisions.len() implies (#[trigger] decisions[i]).id()
        + ".remote"@ != id by {
        assert(ids[i] == decisions[i].id());
        assert(ids.contains(ids[i]));
    }
    crate::sync::merge::every_answer_is_honoured_in_the_end(
        b,
        l,
        r,
        decisions,
        made.answers,
        id,
    );
    lemma_agreement_at(next.local.vaults@, index1.ids(), store1.contents(), id);
    lemma_kinds_tell(base, made.local, run.remote, decisions, id);
    lemma_ids_of_kind_members(decisions, MergeKind::KeepLocal, id);
    lemma_ids_of_kind_members(decisions, MergeKind::AddFromRemote, id);
    lemma_ids_of_kind_members(decisions, MergeKind::TakeLocal, id);
    lemma_ids_of_kind_members(decisions, MergeKind::TakeRemote, id);
    lemma_ids_of_kind_members(decisions, MergeKind::Conflict, id);
    lemma_ids_of_kind_members(decisions, MergeKind::Skip, id);
    let end = crate::sync::merge::merged(b, l, r, decisions, made.answers);
    let asked = resolver1.asked().skip(resolver0.asked().len() as int);
    assert(asked == end.inquiries);
    if b.contains_key(id) || l.contains_key(id) || r.contains_key(id) {
        assert(ids.contains(id));
        let i = ids.index_of(id);
        assert(decisions[i].id() == id);
    } else {
        assert forall|i: int| 0 <= i < decisions.len() implies (#[trigger] decisions[i]).id()
            != id by {
            assert(ids[i] == decisions[i].id());
            assert(ids.contains(ids[i]));
        }
    }
}

/// What a push uploads loses nothing and takes the changed side, and it is the merge of
/// what the run started from.
pub proof fn upload_loses_nothing(run: SyncRun)
    requires
        run.inv(),
        run.stage is Upload,
    ensures
        crate::sync::merge::merges_cleanly(
            run.merge@.base.vaults@,
            run.merge@.local.vaults@,
            run.merge@.remote.vaults@,
            run.local.vaults@,
        ),
        run.stage matches SyncStage::Upload(armored) && encrypt::age_plaintext(
            armored@,
            run.passphrase@,
        ) == Some(run.json@),
{
    let made = run.merge@;
    assert forall|i: int| 0 <= i < made.decisions.len() implies !((
    #[trigger] made.decisions[i]) is Conflict) by {
        assert(made.decisions[i].kind() != MergeKind::Conflict);
    }
    crate::sync::merge::conflict_free_merge_is_clean(
        made.base,
        made.local,
        made.remote,
        made.decisions,
        made.answers,
    );
}

/// A finished push tells how many entries the uploaded manifest has and how many bytes the
/// uploaded text, and has remembered the same manifest as its base.
pub proof fn finished_push_counts_what_was_uploaded(
    run: SyncRun,
    json: Vec<u8>,
    armored: String,
    ready: SyncRun,
    sent: SyncRun,
    done: SyncRun,
)
    requires
        run.inv(),
        run.stage is Render,
        run.goal is Push,
        encrypt::seals(armored@, run.passphrase@, json@),
        call_ensures(SyncRun::manifest_sealed, (run, json, Ok(armored)), ready),
        call_ensures(SyncRun::uploaded, (ready, Ok(())), sent),
        call_ensures(SyncRun::base_saved, (sent, Ok(())), done),
    ensures
        ready.stage == SyncStage::Upload(armored),
        sent.stage matches SyncStage::SaveBase(remembered) && encrypt::age_plaintext(
            remembered@,
            run.passphrase@,
        ) == Some(json@),
        done.stage matches SyncStage::Done(SyncSummary::Push(summary)) && summary.pushed_count
            == run.local.vaults@.dom().len() && summary.ciphertext_size == vstd::utf8::encode_utf8(
            armored@,
        ).len() as usize,
{
}

/// A finished pull reports what its merge did, list by list, and has remembered the merged
/// manifest as its base.
pub proof fn finished_pull_reports_its_merge(
    run: SyncRun,
    json: Vec<u8>,
    armored: String,
    ready: SyncRun,
    done: SyncRun,
)
    requires
        run.inv(),
        run.stage is Render,
        run.goal is Pull,
        encrypt::seals(armored@, run.passphrase@, json@),
        call_ensures(SyncRun::manifest_sealed, (run, json, Ok(armored)), ready),
        call_ensures(SyncRun::base_saved, (ready, Ok(())), done),
    ensures
        ready.stage == SyncStage::SaveBase(armored),
        done.stage matches SyncStage::Done(SyncSummary::Pull(summary)) && {
            &&& summary.added == run.report.added && summary.updated == run.report.updated
            &&& summary.removed == run.report.removed && summary.conflicts == run.report.conflicts
            &&& summary.kept_local == run.report.kept_local && summary.skipped
                == run.report.skipped
        },
{
}

/// A remote that is absent counts as empty, one that cannot be asked as a failure; and what
/// is read from one that is there is merged as it is, where its version is known.
pub proof fn remote_is_what_was_read(
    run: SyncRun,
    present: Result<bool, Error>,
    probed: SyncRun,
    parsing: SyncRun,
    parsed: Result<Manifest, String>,
    read: SyncRun,
)
    requires
        run.inv(),
        run.stage is Probe,
        call_ensures(SyncRun::probed, (run, present), probed),
        call_ensures(SyncRun::remote_parsed, (parsing, parsed), read),
    ensures
        present == Ok::<bool, Error>(true) ==> probed.stage is Pull,
        present == Ok::<bool, Error>(false) ==> probed.stage is ReadBase && forall|id: Seq<char>|
            !(#[trigger] probed.remote.vaults@.contains_key(id)),
        present matches Err(e) ==> probed.stage == SyncStage::Failed(e),
        parsed matches Ok(manifest) ==> (manifest.version == 1 ==> read.stage is ReadBase
            && read.remote == manifest),
        parsed is Err || (parsed->Ok_0).version != 1 ==> read.stage is Failed,
        probed.local == run.local && read.local == parsing.local,
{
}

/// Every failure of the outside ends a run with that failure.
pub proof fn outside_failures_end_a_run(run: SyncRun, e: Error, next: SyncRun)
    requires
        run.inv(),
        ({
            ||| run.stage is Probe && call_ensures(SyncRun::probed, (run, Err(e)), next)
            ||| run.stage is Pull && call_ensures(SyncRun::pulled, (run, Err(e)), next)
            ||| run.stage is Pull && call_ensures(SyncRun::remote_opened, (run, Err(e)), next)
            ||| run.stage is PersistIndex && call_ensures(
                SyncRun::index_persisted,
                (run, Err(e)),
                next,
            )
            ||| run.stage is Upload && call_ensures(SyncRun::uploaded, (run, Err(e)), next)
            ||| run.stage is SaveBase && call_ensures(SyncRun::base_saved, (run, Err(e)), next)
        }),
    ensures
        next.stage == SyncStage::Failed(e),
        next.goal == run.goal,
{
}

/// What a push uploads is the conflict-free merge: a run that has come to its
/// upload is a push, no decision of its merge was a conflict, and the manifest
/// it uploads has, id by id, the remote entry where the remote side alone has or
/// changed it and the local one everywhere else.
pub proof fn upload_is_a_conflict_free_merge(run: SyncRun, id: Seq<char>)
    requires
        run.inv(),
        run.stage is Upload,
    ensures
        run.goal is Push,
        crate::sync::merge::conflict_free(run.merge@.decisions),
        ({
            let made = run.merge@;
            crate::sync::merge::entry_at(run.local.vaults@, id)
                == if crate::sync::merge::takes_remote(
                crate::sync::merge::merge_kind(
                    crate::sync::merge::password_of(made.base, id),
                    crate::sync::merge::password_of(made.local, id),
                    crate::sync::merge::password_of(made.remote, id),
                ),
            ) {
                crate::sync::merge::entry_at(made.remote.vaults@, id)
            } else {
                crate::sync::merge::entry_at(made.local.vaults@, id)
            }
        }),
{
    let made = run.merge@;
    crate::sync::merge::automatic_merge_takes_the_changed_side(
        made.base,
        made.local,
        made.remote,
        made.decisions,
        id,
    );
}

/// A pull opens what a push sealed: where the blob that a device pulls is the text
/// that another uploaded, and both have the same passphrase, what comes out of it
/// is the manifest as the other rendered it. The one way for it not to open is that
/// it asks for more work than the machine is ready to do.
pub proof fn pull_opens_what_push_sealed(
    pushed: SyncRun,
    armored: String,
    blob: Seq<u8>,
    passphrase: Seq<char>,
    opened: Result<Vec<u8>, encrypt::DecryptFailure>,
)
    requires
        pushed.inv(),
        pushed.stage == SyncStage::Upload(armored),
        blob == vstd::utf8::encode_utf8(armored@),
        passphrase == pushed.passphrase@,
        encrypt::decrypt_outcome(vstd::utf8::decode_utf8(blob), passphrase, opened),
    ensures
        vstd::utf8::valid_utf8(blob),
        match opened {
            Ok(plain) => plain@ == pushed.json@,
            Err(failure) => failure is ExcessiveWork,
        },
{
    vstd::utf8::encode_utf8_valid_utf8(armored@);
    vstd::utf8::encode_utf8_decode_utf8(armored@);
}

/// The next merge starts from what the last one left: where the base file is the
/// text that a run remembered, and the passphrase is the same, what comes out of
/// it is the merged manifest as that run rendered it. The one way for it not to
/// open is that it asks for more work than the machine is ready to do.
pub proof fn saved_base_is_read_back(
    saved: SyncRun,
    armored: String,
    file: Seq<u8>,
    passphrase: Seq<char>,
    opened: Result<Vec<u8>, encrypt::DecryptFailure>,
)
    requires
        saved.inv(),
        saved.stage == SyncStage::SaveBase(armored),
        file == vstd::utf8::encode_utf8(armored@),
        passphrase == saved.passphrase@,
        encrypt::decrypt_outcome(vstd::utf8::decode_utf8(file), passphrase, opened),
    ensures
        vstd::utf8::valid_utf8(file),
        match opened {
            Ok(plain) => plain@ == saved.json@,
            Err(failure) => failure is ExcessiveWork,
        },
        saved.merge@.sound(),
        saved.local.vaults@ == saved.merge@.result(),
{
    vstd::utf8::encode_utf8_valid_utf8(armored@);
    vstd::utf8::encode_utf8_decode_utf8(armored@);
}

/// A device that has nothing yet gets everything: merging a remote manifest
/// into an empty local one, without a base, meets no conflict and gives the
/// remote entries.
pub proof fn first_pull_copies_the_remote(
    base: Manifest,
    local: Manifest,
    remote: Manifest,
    decisions: Seq<MergeDecision>,
)
    requires
        base.vaults@ == Map::<Seq<char>, VaultEntry>::empty(),
        local.vaults@ == Map::<Seq<char>, VaultEntry>::empty(),
        crate::sync::merge::decides(base, local, remote, decisions),
    ensures
        crate::sync::merge::conflict_free(decisions),
        crate::sync::merge::merged(
            base.vaults@,
            local.vaults@,
            remote.vaults@,
            decisions,
            Seq::empty(),
        ).local == remote.vaults@,
{
    let end = crate::sync::merge::merged(
        base.vaults@,
        local.vaults@,
        remote.vaults@,
        decisions,
        Seq::empty(),
    ).local;
    assert forall|id: Seq<char>| #[trigger]
        crate::sync::merge::entry_at(end, id) == crate::sync::merge::entry_at(
            remote.vaults@,
            id,
        ) by {
        crate::sync::merge::automatic_merge_takes_the_changed_side(
            base,
            local,
            remote,
            decisions,
            id,
        );
    }
    assert forall|id: Seq<char>| end.contains_key(id) == remote.vaults@.contains_key(id) by {
        assert(crate::sync::merge::entry_at(end, id) == crate::sync::merge::entry_at(
            remote.vaults@,
            id,
        ));
    }
    assert forall|id: Seq<char>| end.contains_key(id) implies end[id] == remote.vaults@[id] by {
        assert(crate::sync::merge::entry_at(end, id) == crate::sync::merge::entry_at(
            remote.vaults@,
            id,
        ));
    }
    assert(end =~= remote.vaults@);
}

/// A new device gets everything: after its first pull, with nothing stored and
/// no base, the index lists exactly the vault-ids of the remote manifest, and
/// the store holds under each the password that the manifest has for it.
pub proof fn new_device_gets_what_was_pushed<S: VaultStore, R: ConflictResolver>(
    run: SyncRun,
    base: Manifest,
    next: SyncRun,
    store0: S,
    store1: S,
    index0: VaultIndex,
    index1: VaultIndex,
    resolver0: R,
    resolver1: R,
    id: Seq<char>,
)
    requires
        run.goal is Pull,
        run.merge_made(base, next, store0, store1, index0, index1, resolver0, resolver1),
        next.stage is PersistIndex,
        base.vaults@ == Map::<Seq<char>, VaultEntry>::empty(),
        store0.contents() == Map::<Seq<char>, Seq<char>>::empty(),
        index0.ids() == Set::<Seq<char>>::empty(),
    ensures
        index1.ids() == run.remote.vaults@.dom(),
        run.remote.vaults@.contains_key(id) ==> store1.contents().contains_key(id)
            && store1.contents()[id] == run.remote.vaults@[id].password@,
{
    let made = next.merge@;
    let asked = resolver1.asked().skip(resolver0.asked().len() as int);
    assert(made.local.passwords().dom() =~= made.local.vaults@.dom());
    assert(made.local.vaults@ =~= Map::<Seq<char>, VaultEntry>::empty());
    first_pull_copies_the_remote(base, made.local, run.remote, made.decisions);
    lemma_nothing_asked(
        base.vaults@,
        made.local.vaults@,
        run.remote.vaults@,
        made.decisions,
        crate::sync::merge::answers_in(asked),
    );
    assert(crate::sync::merge::answers_in(asked) =~= Seq::<Option<ConflictResolution>>::empty());
    assert(made.local.vaults@.dom() =~= index0.ids());
    assert(crate::sync::merge::mirrors(
        made.local.vaults@,
        index0.ids(),
        store0.contents(),
    ));
}

/// The ids of a list of decisions that are all of one kind: all of them are of
/// that kind, and none of any other.
proof fn lemma_ids_of_one_kind(
    decisions: Seq<MergeDecision>,
    common: MergeKind,
    kind: MergeKind,
)
    requires
        forall|i: int|
            0 <= i < decisions.len() ==> (#[trigger] decisions[i]).kind() == common,
    ensures
        ids_of_kind(decisions, kind) == if kind == common {
            crate::sync::merge::decision_ids(decisions)
        } else {
            Seq::<Seq<char>>::empty()
        },
    decreases decisions.len(),
{
    if decisions.len() > 0 {
        let before = decisions.drop_last();
        assert forall|i: int| 0 <= i < before.len() implies (#[trigger] before[i]).kind()
            == common by {
            assert(before[i] == decisions[i]);
        }
        lemma_ids_of_one_kind(before, common, kind);
        assert(decisions.last() == decisions[decisions.len() - 1]);
        assert(crate::sync::merge::decision_ids(decisions)
            =~= crate::sync::merge::decision_ids(before).push(decisions.last().id()));
    } else {
        assert(crate::sync::merge::decision_ids(decisions) =~= Seq::<Seq<char>>::empty());
    }
}

/// A status right after a push finds nothing to do: with the remote and the base
/// that the push left, and the store and the index as its merge left them, every
/// list of the summary is empty but that of the unchanged ids, which has exactly
/// the pushed ids in ascending order. Nothing is modified.
pub proof fn status_after_a_push_finds_no_difference<S: VaultStore, R: ConflictResolver>(
    run: SyncRun,
    base: Manifest,
    pushed: SyncRun,
    store0: S,
    store1: S,
    index0: VaultIndex,
    index1: VaultIndex,
    resolver0: R,
    resolver1: R,
    later: SyncRun,
    later_base: Manifest,
    next: SyncRun,
    store2: S,
    index2: VaultIndex,
    resolver2: R,
)
    requires
        run.goal is Push,
        run.local.passwords() == store0.contents().restrict(index0.ids()),
        run.merge_made(base, pushed, store0, store1, index0, index1, resolver0, resolver1),
        pushed.stage is PersistIndex,
        later.goal is Status,
        later.local.passwords() == store1.contents().restrict(index1.ids()),
        later.remote.passwords() == pushed.local.passwords(),
        later_base.passwords() == pushed.local.passwords(),
        later.merge_made(later_base, next, store1, store2, index1, index2, resolver1, resolver2),
    ensures
        store2 == store1,
        index2 == index1,
        next.stage matches SyncStage::Done(SyncSummary::Status(summary)) && {
            &&& summary.local_only@.len() == 0 && summary.remote_only@.len() == 0
            &&& summary.newer_local@.len() == 0 && summary.newer_remote@.len() == 0
            &&& summary.conflicts@.len() == 0
            &&& text::strictly_sorted(text::views(summary.unchanged@))
            &&& forall|id: Seq<char>| #[trigger]
                text::views(summary.unchanged@).contains(id)
                    <==> pushed.local.vaults@.contains_key(id)
        },
{
    let decisions = next.merge@.decisions;
    manifests_in_step_need_nothing(later_base, later.local, later.remote, decisions);
    lemma_ids_of_one_kind(decisions, MergeKind::Skip, MergeKind::AddFromRemote);
    lemma_ids_of_one_kind(decisions, MergeKind::Skip, MergeKind::KeepLocal);
    lemma_ids_of_one_kind(decisions, MergeKind::Skip, MergeKind::TakeLocal);
    lemma_ids_of_one_kind(decisions, MergeKind::Skip, MergeKind::TakeRemote);
    lemma_ids_of_one_kind(decisions, MergeKind::Skip, MergeKind::Skip);
    lemma_ids_of_one_kind(decisions, MergeKind::Skip, MergeKind::Conflict);
    let summary = next.stage->Done_0->Status_0;
    assert(text::views(summary.local_only@).len() == summary.local_only@.len());
    assert(text::views(summary.remote_only@).len() == summary.remote_only@.len());
    assert(text::views(summary.newer_local@).len() == summary.newer_local@.len());
    assert(text::views(summary.newer_remote@).len() == summary.newer_remote@.len());
    assert(text::views(summary.conflicts@).len() == summary.conflicts@.len());
    crate::sync::merge::lemma_same_passwords(later.local, pushed.local);
    crate::sync::merge::lemma_same_passwords(later.remote, pushed.local);
    crate::sync::merge::lemma_same_passwords(later_base, pushed.local);
}

/// After a sync nothing differs: where local and remote hold the same
/// passwords, every id is decided as unchanged.
pub proof fn manifests_in_step_need_nothing(
    base: Manifest,
    local: Manifest,
    remote: Manifest,
    decisions: Seq<MergeDecision>,
)
    requires
        local.passwords() == remote.passwords(),
        crate::sync::merge::decides(base, local, remote, decisions),
    ensures
        forall|i: int|
            0 <= i < decisions.len() ==> (#[trigger] decisions[i]).kind() == MergeKind::Skip,
{
    crate::sync::merge::lemma_same_passwords(local, remote);
    assert forall|i: int| 0 <= i < decisions.len() implies (#[trigger] decisions[i]).kind()
        == MergeKind::Skip by {
        let id = decisions[i].id();
        assert(crate::sync::merge::password_of(local, id) == crate::sync::merge::password_of(
            remote,
            id,
        ));
    }
}

} // verus!
