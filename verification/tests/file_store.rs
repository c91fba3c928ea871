use avpm::sync::encrypt::encrypt;
use avpm::vault::file::{decode_store, decrypted_store, FileImage, FileStore};
use avpm::vault::{VaultError, VaultSecret, VaultStore};
use avpm::Error;

/// A store at a path where there is no file yet.
fn store(passphrase: &str) -> FileStore {
    FileStore::new("/data/store.age".into(), passphrase.into())
}

/// A second handle on what another one left.
fn reopened(from: &FileStore, passphrase: &str) -> FileStore {
    let image = match &from.image {
        FileImage::Text(t) => FileImage::Text(t.clone()),
        FileImage::Unreadable(m) => FileImage::Unreadable(m.clone()),
        FileImage::Absent => FileImage::Absent,
    };
    FileStore::with_image(from.path().to_string(), passphrase.into(), image)
}

#[test]
fn file_crud_roundtrip() {
    let mut store = store("master-pw");
    let secret = VaultSecret::new("dev-password".to_string());
    store.set("dev", &secret).unwrap();
    let got = store.get("dev").unwrap();
    assert_eq!(got.as_str(), "dev-password");
    store.delete("dev").unwrap();
    assert!(store.get("dev").is_err());
}

#[test]
fn set_overwrites() {
    let mut store = store("master-pw");
    store.set("dev", &VaultSecret::new("v1".into())).unwrap();
    store.set("dev", &VaultSecret::new("v2".into())).unwrap();
    assert_eq!(store.get("dev").unwrap().as_str(), "v2");
}

#[test]
fn get_missing_is_not_found() {
    let store = store("master-pw");
    let err = store.get("nope").err().unwrap();
    assert!(matches!(
        err,
        Error::Vault(VaultError::NotFound(ref id)) if id == "nope"
    ));
}

#[test]
fn file_delete_missing_is_not_found() {
    let mut store = store("master-pw");
    let err = store.delete("nope").unwrap_err();
    assert!(matches!(
        err,
        Error::Vault(VaultError::NotFound(ref id)) if id == "nope"
    ));
}

#[test]
fn file_persists_across_handles() {
    // A new FileStore handle on the same file + passphrase must see data
    // written by a previous handle.
    let mut store1 = store("master-pw");
    store1
        .set("prod", &VaultSecret::new("prod-pw".into()))
        .unwrap();
    let store2 = reopened(&store1, "master-pw");
    assert_eq!(store2.get("prod").unwrap().as_str(), "prod-pw");
}

#[test]
fn wrong_passphrase_fails_to_decrypt() {
    let mut store1 = store("correct-pw");
    store1.set("dev", &VaultSecret::new("x".into())).unwrap();
    // A second handle with the wrong passphrase cannot decrypt the file.
    let store2 = reopened(&store1, "wrong-pw");
    let err = store2.get("dev").err().unwrap();
    assert!(
        matches!(err, Error::Vault(VaultError::StoreDecrypt)),
        "{err:?}"
    );
}

#[test]
fn store_file_is_age_armored() {
    // The file must be age-armored ASCII (not plaintext, not opaque binary).
    let mut store = store("master-pw");
    store
        .set("dev", &VaultSecret::new("secret-value".into()))
        .unwrap();
    let on_disk = match &store.image {
        FileImage::Text(t) => t.clone(),
        _ => panic!("expected a text"),
    };
    assert!(
        on_disk.contains("AGE ENCRYPTED FILE"),
        "expected armored age output, got: {on_disk}"
    );
    // The plaintext must never appear on disk.
    assert!(!on_disk.contains("secret-value"));
}

#[test]
fn multiple_vaults_persist_together() {
    let mut store1 = store("master-pw");
    store1.set("dev", &VaultSecret::new("d".into())).unwrap();
    store1.set("prod", &VaultSecret::new("p".into())).unwrap();
    store1.set("staging", &VaultSecret::new("s".into())).unwrap();
    let store2 = reopened(&store1, "master-pw");
    assert_eq!(store2.get("dev").unwrap().as_str(), "d");
    assert_eq!(store2.get("prod").unwrap().as_str(), "p");
    assert_eq!(store2.get("staging").unwrap().as_str(), "s");
}

#[test]
fn deleting_one_vault_preserves_the_others() {
    // The file as three writes leave it; every opening of one takes its time.
    let json = br#"{"dev":"d","prod":"p","staging":"s"}"#;
    let text = FileImage::Text(encrypt(json, "master-pw").unwrap());
    let mut store2 = FileStore::with_image("/data/store.age".into(), "master-pw".into(), text);
    store2.delete("prod").unwrap();
    let store3 = reopened(&store2, "master-pw");
    assert_eq!(store3.get("dev").unwrap().as_str(), "d");
    assert!(matches!(
        store3.get("prod"),
        Err(Error::Vault(VaultError::NotFound(id))) if id == "prod"
    ));
    assert_eq!(store3.get("staging").unwrap().as_str(), "s");
}

#[test]
fn a_refusal_to_decrypt_is_one_of_the_store() {
    assert!(matches!(
        decrypted_store("/s", Err(Error::Decrypt("bad".into()))),
        Err(Error::Vault(VaultError::StoreDecrypt))
    ));
    assert!(matches!(
        decrypted_store("/s", Err(Error::Other("x".into()))),
        Err(Error::Other(m)) if m == "x"
    ));
    let map = decrypted_store("/s", Ok(b"{\"a\":\"1\"}".to_vec())).ok().unwrap();
    assert_eq!(map.get("a").unwrap(), "1");
}

#[test]
fn only_a_sealed_text_replaces_the_file() {
    let mut store = store("p");
    assert!(matches!(
        store.replace_text(Err(Error::Encrypt("no".into()))),
        Err(Error::Encrypt(m)) if m == "no"
    ));
    assert!(!store.changed && matches!(store.image, FileImage::Absent));
    store.replace_text(Ok("sealed".into())).unwrap();
    assert!(store.changed);
    assert!(matches!(&store.image, FileImage::Text(t) if t == "sealed"));
}

#[test]
fn a_fresh_store_takes_its_first_password() {
    for image in [FileImage::Absent, FileImage::Text("\n".into())] {
        let mut store = FileStore::with_image("/s".into(), "p".into(), image);
        store.set("dev", &VaultSecret::new("x".into())).unwrap();
        assert!(store.changed && matches!(store.image, FileImage::Text(_)));
    }
}

#[test]
fn a_blank_file_has_nothing_to_delete() {
    let mut store = FileStore::with_image("/s".into(), "p".into(), FileImage::Text("\n".into()));
    assert!(matches!(
        store.delete("dev"),
        Err(Error::Vault(VaultError::NotFound(id))) if id == "dev"
    ));
    let mut store =
        FileStore::with_image("/s".into(), "p".into(), FileImage::Unreadable("denied".into()));
    assert!(matches!(
        store.delete("dev"),
        Err(Error::Vault(VaultError::FileStore { message, .. })) if message == "read failed: denied"
    ));
}

#[test]
fn a_blank_file_is_an_empty_store() {
    let store = FileStore::with_image("/s".into(), "p".into(), FileImage::Text(" \n".into()));
    assert!(matches!(
        store.get("dev"),
        Err(Error::Vault(VaultError::NotFound(_)))
    ));
    assert!(!store.changed);
}

#[test]
fn an_unreadable_file_is_never_overwritten() {
    let mut store =
        FileStore::with_image("/s".into(), "p".into(), FileImage::Unreadable("denied".into()));
    match store.set("dev", &VaultSecret::new("x".into())) {
        Err(Error::Vault(VaultError::FileStore { path, message })) => {
            assert_eq!(path, "/s");
            assert_eq!(message, "read failed: denied");
        }
        other => panic!("unexpected {other:?}"),
    }
    assert!(!store.changed);
    assert!(matches!(store.image, FileImage::Unreadable(_)));
}

#[test]
fn a_decrypted_store_must_be_a_string_map() {
    let map = decode_store("/s", br#"{"dev":"a\"b","prod":"x"}"#.to_vec()).unwrap();
    assert_eq!(map.len(), 2);
    assert_eq!(map.get("dev").unwrap(), "a\"b");
    for (bytes, cause) in [
        (vec![0xff, 0xfe], "plaintext is not valid UTF-8: "),
        (b"{\"dev\":1}".to_vec(), "decrypted JSON is malformed: "),
        (b"[]".to_vec(), "decrypted JSON is malformed: "),
    ] {
        match decode_store("/s", bytes) {
            Err(Error::Vault(VaultError::FileStore { path, message })) => {
                assert_eq!(path, "/s");
                assert!(message.starts_with(cause), "{message}");
            }
            _ => panic!("expected an error for {cause}"),
        }
    }
}

#[test]
fn odd_characters_survive_the_file() {
    let mut store = store("p");
    let odd = "q\"\\\n\u{1}\u{1f600}";
    store.set(odd, &VaultSecret::new(odd.into())).unwrap();
    assert_eq!(store.get(odd).unwrap().as_str(), odd);
    assert!(store.changed);
}
