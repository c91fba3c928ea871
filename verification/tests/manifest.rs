use avpm::index::VaultIndex;
use avpm::sync::manifest::{Manifest, VaultEntry, MANIFEST_VERSION};
use avpm::vault::mock::MockStore;
use avpm::vault::{VaultSecret, VaultStore};

#[test]
fn from_local_skips_index_store_drift() {
    let mut idx = VaultIndex::new("/data/index.json".into());
    idx.add("dev").unwrap();
    idx.add("ghost").unwrap(); // in index, not store
    let mut store = MockStore::new();
    store.set("dev", &VaultSecret::new("p".into())).unwrap();
    let m = Manifest::from_local(&store, &idx).unwrap();
    assert_eq!(m.len(), 1);
    assert!(m.vaults.contains_key("dev"));
}

#[test]
fn version_is_one() {
    let m = Manifest::new();
    assert_eq!(m.version, MANIFEST_VERSION);
}

#[test]
fn from_json_rejects_version_mismatch() {
    // A payload claiming a future version must be rejected rather than
    // silently misread.
    let json = r#"{"version":99,"vaults":{}}"#;
    let read: serde_json::Value = serde_json::from_str(json).unwrap();
    assert!(read["vaults"].as_object().unwrap().is_empty());
    let future = Manifest {
        version: read["version"].as_u64().unwrap() as u32,
        ..Manifest::new()
    };
    let err = future.accept().err().unwrap();
    let msg = err.message();
    assert!(
        msg.contains("version mismatch"),
        "expected version-mismatch error, got: {msg}"
    );
    assert!(msg.contains("file has 99, avpm supports 1"), "{msg}");
}

#[test]
fn entries_come_sorted_by_vault_id() {
    let mut m = Manifest::default();
    assert!(m.is_empty());
    m.vaults.insert(
        "prod".into(),
        VaultEntry::new("p".into(), jiff::Timestamp::UNIX_EPOCH),
    );
    m.vaults.insert(
        "dev".into(),
        VaultEntry::new("d".into(), jiff::Timestamp::UNIX_EPOCH),
    );
    let ids: Vec<&str> = m.entries().into_iter().map(|(id, _)| id.as_str()).collect();
    assert_eq!(ids, vec!["dev", "prod"]);
    assert_eq!(m.entries()[1].1.password, "p");
}

#[test]
fn an_entry_from_a_secret_is_stamped_now() {
    let e = VaultEntry::from_secret(&VaultSecret::new("pw".into()));
    assert_eq!(e.password, "pw");
    assert!(e.updated_at > jiff::Timestamp::UNIX_EPOCH);
    assert_eq!(e.clone(), e);
}

#[test]
fn only_indexed_ids_are_collected() {
    let mut idx = VaultIndex::new("/data/index.json".into());
    idx.add("a").unwrap();
    let mut store = MockStore::new();
    store.seed("a", "1");
    store.seed("unlisted", "2");
    let m = Manifest::from_local(&store, &idx).unwrap();
    assert_eq!(m.len(), 1);
    assert_eq!(m.vaults.get("a").unwrap().password, "1");
}
