use avpm::vault::mock::MockStore;
use avpm::vault::{VaultError, VaultSecret, VaultStore};
use avpm::Error;

#[test]
fn mock_crud_roundtrip() {
    let mut s = MockStore::new();
    assert!(s.is_empty());
    s.set("dev", &VaultSecret::new("p1".into())).unwrap();
    assert_eq!(s.get("dev").unwrap().as_str(), "p1");
    assert_eq!(s.len(), 1);
    s.set("dev", &VaultSecret::new("p2".into())).unwrap(); // overwrite
    assert_eq!(s.get("dev").unwrap().as_str(), "p2");
    assert_eq!(s.len(), 1);
    s.delete("dev").unwrap();
    assert!(s.get("dev").is_err());
}

#[test]
fn mock_delete_missing_is_not_found() {
    let mut s = MockStore::new();
    let err = s.delete("nope").unwrap_err();
    match err {
        Error::Vault(VaultError::NotFound(id)) => assert_eq!(id, "nope"),
        other => panic!("expected NotFound, got {other:?}"),
    }
}

#[test]
fn vault_ids_sorted() {
    let mut s = MockStore::new();
    s.seed("prod", "x");
    s.seed("dev", "y");
    s.seed("staging", "z");
    assert_eq!(s.vault_ids(), vec!["dev", "prod", "staging"]);
}

#[test]
fn the_second_write_wins() {
    let mut s = MockStore::default();
    s.set("dev", &VaultSecret::new("v1".into())).unwrap();
    s.set("dev", &VaultSecret::new("v2".into())).unwrap();
    assert_eq!(s.get("dev").unwrap().as_str(), "v2");
    assert_eq!(s.len(), 1);
}

#[test]
fn other_ids_are_left_alone() {
    let mut s = MockStore::new();
    s.seed("dev", "d");
    s.seed("prod", "p");
    s.delete("dev").unwrap();
    assert_eq!(s.get("prod").unwrap().as_str(), "p");
    assert!(matches!(s.get("dev"), Err(Error::Vault(VaultError::NotFound(id))) if id == "dev"));
    assert!(s.delete("dev").is_err());
}

/// A store of its own making can stand in for the in-memory one.
struct Refusing;

impl VaultStore for Refusing {
    fn get(&self, _vault_id: &str) -> Result<VaultSecret, Error> {
        Err(Error::Other("refused".into()))
    }
    fn set(&mut self, _vault_id: &str, _secret: &VaultSecret) -> Result<(), Error> {
        Err(Error::Other("refused".into()))
    }
    fn delete(&mut self, _vault_id: &str) -> Result<(), Error> {
        Err(Error::Other("refused".into()))
    }
}

#[test]
fn a_refusing_store_surfaces_its_error() {
    let mut idx = avpm::VaultIndex::new("/i".into());
    idx.add("dev").unwrap();
    let r = avpm::sync::Manifest::from_local(&Refusing, &idx);
    assert!(matches!(r, Err(Error::Other(m)) if m == "refused"));
}
