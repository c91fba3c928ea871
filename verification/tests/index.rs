use avpm::index::{IndexContents, IndexFile, VaultIndex, INDEX_VERSION};
use avpm::vault::VaultError;
use avpm::Error;

fn index() -> VaultIndex {
    VaultIndex::new("/data/avpm/index.json".into())
}

#[test]
fn missing_file_lists_empty() {
    let idx = index();
    assert!(idx.list().unwrap().is_empty());
}

#[test]
fn add_then_list_sorted() {
    let mut idx = index();
    idx.add("prod").unwrap();
    idx.add("dev").unwrap();
    idx.add("staging").unwrap();
    idx.add("dev").unwrap(); // dedup
    assert_eq!(idx.list().unwrap(), vec!["dev", "prod", "staging"]);
}

#[test]
fn remove_idempotent() {
    let mut idx = index();
    idx.add("dev").unwrap();
    idx.remove("dev").unwrap();
    idx.remove("dev").unwrap(); // no-op, no error
    assert!(idx.list().unwrap().is_empty());
}

#[test]
fn index_persists_across_handles() {
    let mut idx = index();
    idx.add("dev").unwrap();
    assert!(idx.changed);
    let idx2 = VaultIndex::with_contents(idx.path().to_string(), idx.contents);
    assert_eq!(idx2.list().unwrap(), vec!["dev"]);
    assert!(!idx2.changed);
}

#[test]
fn corrupted_file_errors() {
    let idx = VaultIndex::with_contents(
        "/i.json".into(),
        IndexContents::Corrupted("key must be a string".into()),
    );
    assert!(matches!(
        idx.list(),
        Err(Error::Vault(VaultError::IndexCorrupted { .. }))
    ));
}

#[test]
fn unreadable_file_errors_and_is_left_alone() {
    let mut idx =
        VaultIndex::with_contents("/i.json".into(), IndexContents::Unreadable("denied".into()));
    match idx.add("dev") {
        Err(Error::Vault(VaultError::Index { path, message })) => {
            assert_eq!(path, "/i.json");
            assert_eq!(message, "denied");
        }
        other => panic!("unexpected {other:?}"),
    }
    assert!(idx.remove("dev").is_err());
    assert!(!idx.changed);
}

#[test]
fn a_foreign_version_is_kept() {
    let file = IndexFile::from_ids(7, &vec!["b".into(), "a".into(), "b".into()]);
    let mut idx = VaultIndex::with_contents("/i.json".into(), IndexContents::Present(file));
    assert_eq!(idx.list().unwrap(), vec!["a", "b"]);
    idx.add("c").unwrap();
    match &idx.contents {
        IndexContents::Present(f) => assert_eq!(f.version, 7),
        _ => panic!("expected contents"),
    }
    assert_eq!(INDEX_VERSION, 1);
}

#[test]
fn an_operation_without_effect_does_not_touch_the_file() {
    let file = IndexFile::from_ids(1, &vec!["dev".into()]);
    let mut idx = VaultIndex::with_contents("/i.json".into(), IndexContents::Present(file));
    idx.add("dev").unwrap();
    idx.remove("other").unwrap();
    assert!(!idx.changed);
    idx.remove("dev").unwrap();
    assert!(idx.changed);
}

#[test]
fn the_listing_does_not_depend_on_the_order_of_additions() {
    let mut a = index();
    let mut b = index();
    for id in ["x", "a", "m"] {
        a.add(id).unwrap();
    }
    for id in ["m", "x", "a"] {
        b.add(id).unwrap();
    }
    assert_eq!(a.list().unwrap(), b.list().unwrap());
}
