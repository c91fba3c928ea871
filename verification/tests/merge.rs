use avpm::index::VaultIndex;
use avpm::sync::manifest::{Manifest, VaultEntry};
use avpm::sync::merge::{
    apply_decisions, compute_decisions, decide, ConflictResolution, ConflictResolver,
    MergeDecision,
};
use avpm::sync::SyncError;
use avpm::vault::mock::MockStore;
use avpm::vault::{VaultSecret, VaultStore};
use avpm::Error;
use jiff::Timestamp;

fn entry(pw: &str, ts: i64) -> VaultEntry {
    VaultEntry::new(pw.to_string(), Timestamp::from_second(ts).unwrap())
}

fn manifest(pairs: &[(&str, &str, i64)]) -> Manifest {
    let mut m = Manifest::new();
    for (id, pw, ts) in pairs {
        m.vaults.insert((*id).to_string(), entry(pw, *ts));
    }
    m
}

// The base timestamp is irrelevant to decisions (only passwords matter);
// we vary timestamps across sides to prove they do NOT change the outcome.
fn base_of(pairs: &[(&str, &str)]) -> Manifest {
    let mut m = Manifest::new();
    for (id, pw) in pairs {
        m.vaults.insert((*id).to_string(), entry(pw, 0));
    }
    m
}

fn index() -> VaultIndex {
    VaultIndex::new("/data/index.json".into())
}

#[test]
fn remote_only_is_added() {
    let base = base_of(&[]);
    let local = manifest(&[]);
    let remote = manifest(&[("dev", "p", 10)]);
    assert_eq!(
        compute_decisions(&base, &local, &remote),
        vec![MergeDecision::AddFromRemote("dev".into())]
    );
}

#[test]
fn local_only_is_kept() {
    let base = base_of(&[]);
    let local = manifest(&[("dev", "p", 10)]);
    let remote = manifest(&[]);
    assert_eq!(
        compute_decisions(&base, &local, &remote),
        vec![MergeDecision::KeepLocal("dev".into())]
    );
}

#[test]
fn convergent_is_skip() {
    let base = base_of(&[("dev", "old")]);
    let local = manifest(&[("dev", "new", 20)]);
    let remote = manifest(&[("dev", "new", 30)]);
    // Both reached "new" via different timestamps: still Skip (same value).
    assert_eq!(
        compute_decisions(&base, &local, &remote),
        vec![MergeDecision::Skip("dev".into())]
    );
}

#[test]
fn only_local_changed_takes_local() {
    let base = base_of(&[("dev", "old")]);
    let local = manifest(&[("dev", "local-new", 20)]);
    let remote = manifest(&[("dev", "old", 10)]); // == base
    assert_eq!(
        compute_decisions(&base, &local, &remote),
        vec![MergeDecision::TakeLocal("dev".into())]
    );
}

#[test]
fn only_remote_changed_takes_remote() {
    let base = base_of(&[("dev", "old")]);
    let local = manifest(&[("dev", "old", 10)]); // == base
    let remote = manifest(&[("dev", "remote-new", 20)]);
    assert_eq!(
        compute_decisions(&base, &local, &remote),
        vec![MergeDecision::TakeRemote("dev".into())]
    );
}

#[test]
fn both_changed_differently_is_conflict() {
    let base = base_of(&[("dev", "old")]);
    let local = manifest(&[("dev", "l-new", 100)]); // local newer by ts
    let remote = manifest(&[("dev", "r-new", 10)]); // remote older by ts
    assert_eq!(
        compute_decisions(&base, &local, &remote),
        vec![MergeDecision::Conflict("dev".into())]
    );
}

#[test]
fn both_deleted_is_skip() {
    let base = base_of(&[("dev", "old")]);
    let local = manifest(&[]);
    let remote = manifest(&[]);
    assert_eq!(
        compute_decisions(&base, &local, &remote),
        vec![MergeDecision::Skip("dev".into())]
    );
}

#[test]
fn delete_vs_keep_is_conflict() {
    let base = base_of(&[("dev", "old")]);
    let local = manifest(&[]); // deleted locally
    let remote = manifest(&[("dev", "old", 10)]); // unchanged on remote
    assert_eq!(
        compute_decisions(&base, &local, &remote),
        vec![MergeDecision::Conflict("dev".into())]
    );
}

#[test]
fn both_created_same_id_same_value_is_skip() {
    let base = base_of(&[]);
    let local = manifest(&[("dev", "p", 10)]);
    let remote = manifest(&[("dev", "p", 20)]);
    assert_eq!(
        compute_decisions(&base, &local, &remote),
        vec![MergeDecision::Skip("dev".into())]
    );
}

#[test]
fn both_created_same_id_different_value_is_conflict() {
    let base = base_of(&[]);
    let local = manifest(&[("dev", "p1", 10)]);
    let remote = manifest(&[("dev", "p2", 20)]);
    assert_eq!(
        compute_decisions(&base, &local, &remote),
        vec![MergeDecision::Conflict("dev".into())]
    );
}

#[test]
fn empty_base_degrades_to_2way_union() {
    // First sync (no base): union of both sides, conflict only on clashing
    // same-id-different-value.
    let base = base_of(&[]);
    let local = manifest(&[("a", "1", 1), ("c", "l", 1)]);
    let remote = manifest(&[("b", "2", 1), ("c", "r", 1)]);
    let d = compute_decisions(&base, &local, &remote);
    assert!(d.contains(&MergeDecision::KeepLocal("a".into())));
    assert!(d.contains(&MergeDecision::AddFromRemote("b".into())));
    assert!(d.contains(&MergeDecision::Conflict("c".into())));
}

struct AlwaysKeepRemote;
impl ConflictResolver for AlwaysKeepRemote {
    fn resolve(
        &mut self,
        _id: &str,
        _b: Option<&VaultEntry>,
        _l: Option<&VaultEntry>,
        _r: Option<&VaultEntry>,
    ) -> Result<ConflictResolution, Error> {
        Ok(ConflictResolution::KeepRemote)
    }
}

#[test]
fn apply_add_writes_through() {
    let mut idx = index();
    let mut store = MockStore::new();
    let mut local = manifest(&[]);
    let base = base_of(&[]);
    let remote = manifest(&[("dev", "p", 10)]);
    let decisions = vec![MergeDecision::AddFromRemote("dev".into())];
    let mut resolver = AlwaysKeepRemote;
    let summary = apply_decisions(
        &mut local,
        &base,
        &remote,
        &decisions,
        &mut store,
        &mut idx,
        &mut resolver,
    )
    .unwrap();
    assert_eq!(summary.added, vec!["dev"]);
    assert_eq!(store.get("dev").unwrap().as_str(), "p");
    assert_eq!(idx.list().unwrap(), vec!["dev"]);
    assert!(local.vaults.contains_key("dev"));
}

struct KeepBothResolver;
impl ConflictResolver for KeepBothResolver {
    fn resolve(
        &mut self,
        _: &str,
        _: Option<&VaultEntry>,
        _: Option<&VaultEntry>,
        _: Option<&VaultEntry>,
    ) -> Result<ConflictResolution, Error> {
        Ok(ConflictResolution::KeepBoth)
    }
}

#[test]
fn apply_conflict_keep_both_creates_remote_id() {
    let mut idx = index();
    let mut store = MockStore::new();
    store.set("dev", &VaultSecret::new("p1".into())).unwrap();
    idx.add("dev").unwrap();
    let mut local = manifest(&[("dev", "p1", 10)]);
    let base = base_of(&[("dev", "old")]);
    let remote = manifest(&[("dev", "p2", 10)]);
    let decisions = vec![MergeDecision::Conflict("dev".into())];

    let mut resolver = KeepBothResolver;
    let summary = apply_decisions(
        &mut local,
        &base,
        &remote,
        &decisions,
        &mut store,
        &mut idx,
        &mut resolver,
    )
    .unwrap();
    assert_eq!(summary.added, vec!["dev.remote"]);
    assert!(store.get("dev").is_ok());
    assert!(store.get("dev.remote").is_ok());
}

#[test]
fn apply_take_remote_overwrites_store() {
    let mut idx = index();
    let mut store = MockStore::new();
    store.set("dev", &VaultSecret::new("old".into())).unwrap();
    idx.add("dev").unwrap();
    let mut local = manifest(&[("dev", "old", 1)]); // == base
    let base = base_of(&[("dev", "old")]);
    let remote = manifest(&[("dev", "remote-new", 2)]);
    let decisions = vec![MergeDecision::TakeRemote("dev".into())];
    let mut resolver = AlwaysKeepRemote;
    let _ = apply_decisions(
        &mut local,
        &base,
        &remote,
        &decisions,
        &mut store,
        &mut idx,
        &mut resolver,
    )
    .unwrap();
    assert_eq!(store.get("dev").unwrap().as_str(), "remote-new");
}

#[test]
fn apply_conflict_keep_remote_on_remote_deletion_removes_locally() {
    let mut idx = index();
    let mut store = MockStore::new();
    store.set("dev", &VaultSecret::new("old".into())).unwrap();
    idx.add("dev").unwrap();
    let mut local = manifest(&[("dev", "old", 1)]);
    let base = base_of(&[("dev", "old")]);
    let remote = manifest(&[]); // remote deleted dev
    let decisions = vec![MergeDecision::Conflict("dev".into())];
    let mut resolver = AlwaysKeepRemote; // accept the deletion
    let summary = apply_decisions(
        &mut local,
        &base,
        &remote,
        &decisions,
        &mut store,
        &mut idx,
        &mut resolver,
    )
    .unwrap();
    assert_eq!(summary.removed, vec!["dev"]);
    assert!(store.get("dev").is_err());
    assert!(!idx.list().unwrap().contains(&"dev".to_string()));
}

#[test]
fn decisions_come_in_ascending_order_once_per_id() {
    let base = base_of(&[("b", "1"), ("d", "1")]);
    let local = manifest(&[("d", "1", 0), ("a", "1", 0)]);
    let remote = manifest(&[("c", "1", 0), ("d", "1", 0)]);
    assert_eq!(
        compute_decisions(&base, &local, &remote),
        vec![
            MergeDecision::KeepLocal("a".into()),
            MergeDecision::Skip("b".into()),
            MergeDecision::AddFromRemote("c".into()),
            MergeDecision::Skip("d".into()),
        ]
    );
}

#[test]
fn a_modified_entry_that_the_other_side_deleted_is_a_conflict() {
    let (old, new) = (entry("old", 0), entry("new", 1));
    assert_eq!(
        decide("x", Some(&old), Some(&new), None),
        MergeDecision::Conflict("x".into())
    );
    assert_eq!(
        decide("x", Some(&old), None, Some(&new)),
        MergeDecision::Conflict("x".into())
    );
    assert_eq!(decide("x", None, None, None), MergeDecision::Skip("x".into()));
}

#[test]
fn exchanging_the_sides_exchanges_the_decision() {
    let base = base_of(&[("a", "1"), ("b", "1"), ("c", "1")]);
    let one = manifest(&[("a", "2", 0), ("b", "1", 0), ("c", "2", 0), ("e", "1", 0)]);
    let two = manifest(&[("a", "1", 0), ("b", "2", 0), ("c", "3", 0), ("f", "1", 0)]);
    assert_eq!(
        compute_decisions(&base, &one, &two),
        vec![
            MergeDecision::TakeLocal("a".into()),
            MergeDecision::TakeRemote("b".into()),
            MergeDecision::Conflict("c".into()),
            MergeDecision::KeepLocal("e".into()),
            MergeDecision::AddFromRemote("f".into()),
        ]
    );
    assert_eq!(
        compute_decisions(&base, &two, &one),
        vec![
            MergeDecision::TakeRemote("a".into()),
            MergeDecision::TakeLocal("b".into()),
            MergeDecision::Conflict("c".into()),
            MergeDecision::AddFromRemote("e".into()),
            MergeDecision::KeepLocal("f".into()),
        ]
    );
}

#[test]
fn a_decision_about_an_absent_id_is_an_error() {
    let mut idx = index();
    let mut store = MockStore::new();
    let mut local = manifest(&[]);
    let err = apply_decisions(
        &mut local,
        &base_of(&[]),
        &manifest(&[]),
        &vec![MergeDecision::TakeRemote("ghost".into())],
        &mut store,
        &mut idx,
        &mut AlwaysKeepRemote,
    )
    .unwrap_err();
    assert!(matches!(
        err,
        Error::Sync(SyncError::Manifest(m))
            if m == "merge decision referenced absent vault-id 'ghost'"
    ));
    assert!(store.is_empty());
}

#[test]
fn keeping_both_without_a_local_value_takes_the_remote_one() {
    let mut idx = index();
    let mut store = MockStore::new();
    let mut local = manifest(&[]);
    let base = base_of(&[("dev", "old")]);
    let remote = manifest(&[("dev", "new", 3)]);
    let summary = apply_decisions(
        &mut local,
        &base,
        &remote,
        &vec![MergeDecision::Conflict("dev".into())],
        &mut store,
        &mut idx,
        &mut KeepBothResolver,
    )
    .unwrap();
    assert_eq!(summary.updated, vec!["dev"]);
    assert_eq!(summary.conflicts, vec!["dev"]);
    assert_eq!(store.get("dev").unwrap().as_str(), "new");
    // ... and without a remote one there is nothing to keep.
    let summary = apply_decisions(
        &mut local,
        &base,
        &manifest(&[]),
        &vec![MergeDecision::Conflict("dev".into())],
        &mut store,
        &mut idx,
        &mut KeepBothResolver,
    )
    .unwrap();
    assert!(summary.removed.is_empty() && summary.updated.is_empty());
    assert_eq!(store.get("dev").unwrap().as_str(), "new");
}

#[test]
fn without_conflicts_the_resolver_does_not_matter() {
    let mut idx = index();
    let mut store = MockStore::new();
    let mut local = manifest(&[]);
    let remote = manifest(&[("a", "1", 0), ("b", "2", 0)]);
    let base = base_of(&[]);
    let decisions = compute_decisions(&base, &local, &remote);
    let summary = apply_decisions(
        &mut local,
        &base,
        &remote,
        &decisions,
        &mut store,
        &mut idx,
        &mut Failing,
    )
    .unwrap();
    assert_eq!(summary.added, vec!["a", "b"]);
    assert_eq!(store.vault_ids(), vec!["a", "b"]);
}

#[test]
fn the_index_is_to_be_written_back_only_where_it_changed() {
    let mut known = index();
    known.add("a").unwrap();
    let mut idx = VaultIndex::with_contents("/data/index.json".into(), known.contents);
    let mut store = MockStore::new();
    store.seed("a", "0");
    let mut local = manifest(&[("a", "0", 0)]);
    let mut take = |decisions, idx: &mut VaultIndex| {
        apply_decisions(
            &mut local,
            &base_of(&[("a", "0")]),
            &manifest(&[("a", "1", 0), ("b", "2", 0)]),
            &decisions,
            &mut store,
            idx,
            &mut AlwaysKeepRemote,
        )
        .unwrap()
    };
    take(vec![MergeDecision::TakeRemote("a".into())], &mut idx);
    assert!(!idx.changed);
    take(vec![MergeDecision::AddFromRemote("b".into())], &mut idx);
    assert!(idx.changed);
    assert_eq!(idx.list().unwrap(), vec!["a", "b"]);
}

struct Failing;
impl ConflictResolver for Failing {
    fn resolve(
        &mut self,
        _: &str,
        _: Option<&VaultEntry>,
        _: Option<&VaultEntry>,
        _: Option<&VaultEntry>,
    ) -> Result<ConflictResolution, Error> {
        Err(Error::Other("no terminal".into()))
    }
}

#[test]
fn a_failing_resolver_stops_the_merge_where_it_is() {
    let mut idx = index();
    let mut store = MockStore::new();
    let mut local = manifest(&[]);
    let remote = manifest(&[("a", "1", 0), ("b", "2", 0), ("c", "3", 0)]);
    let err = apply_decisions(
        &mut local,
        &base_of(&[("b", "0")]),
        &remote,
        &vec![
            MergeDecision::AddFromRemote("a".into()),
            MergeDecision::Conflict("b".into()),
            MergeDecision::AddFromRemote("c".into()),
        ],
        &mut store,
        &mut idx,
        &mut Failing,
    );
    assert!(matches!(err, Err(Error::Other(m)) if m == "no terminal"));
    assert_eq!(store.vault_ids(), vec!["a"]);
    assert_eq!(idx.list().unwrap(), vec!["a"]);
    assert!(idx.changed);
}
