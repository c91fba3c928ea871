use avpm::config::ConfigError;
use avpm::sync::{SyncBackendError, SyncError};
use avpm::vault::error::keyring_hint;
use avpm::vault::VaultError;
use avpm::Error;

#[test]
fn vault_not_found_maps_to_exit_2() {
    let e = Error::Vault(VaultError::NotFound("dev".into()));
    assert_eq!(e.exit_code(), 2);
}

#[test]
fn config_error_maps_to_exit_3() {
    let e = Error::Config(ConfigError::Invalid("bad".into()));
    assert_eq!(e.exit_code(), 3);
}

#[test]
fn store_decrypt_maps_to_exit_4() {
    let e = Error::Vault(VaultError::StoreDecrypt);
    assert_eq!(e.exit_code(), 4);
}

#[test]
fn locked_maps_to_exit_5() {
    let e = Error::Vault(VaultError::Locked);
    assert_eq!(e.exit_code(), 5);
}

#[test]
fn generic_fallback_maps_to_exit_1() {
    assert_eq!(Error::Sync(SyncError::NotConfigured).exit_code(), 1);
    assert_eq!(Error::Other("x".into()).exit_code(), 1);
}

#[test]
fn sync_and_age_decrypt_failures_map_to_exit_4() {
    assert_eq!(Error::Sync(SyncError::Decrypt("x".into())).exit_code(), 4);
    assert_eq!(Error::Decrypt("x".into()).exit_code(), 4);
    assert_eq!(Error::Encrypt("x".into()).exit_code(), 1);
}

#[test]
fn keyring_locked_maps_to_exit_6() {
    let e = Error::Vault(VaultError::KeyringLocked);
    assert_eq!(e.exit_code(), 6);
}

#[test]
fn messages_name_what_failed() {
    assert_eq!(
        Error::Vault(VaultError::NotFound("dev".into())).message(),
        "vault 'dev' not found"
    );
    assert_eq!(
        Error::Vault(VaultError::Index {
            path: "/p".into(),
            message: "denied".into()
        })
        .message(),
        "index error at /p: denied"
    );
    assert_eq!(
        Error::Vault(VaultError::IndexCorrupted {
            path: "/p".into(),
            message: "eof".into()
        })
        .message(),
        "index file at /p is corrupted: eof"
    );
    assert_eq!(
        Error::Vault(VaultError::FileStore {
            path: "/s".into(),
            message: "m".into()
        })
        .message(),
        "file store error at /s: m"
    );
    assert_eq!(
        Error::Sync(SyncError::Backend(SyncBackendError::Git {
            message: "m".into(),
            command: "git push (main)".into()
        }))
        .message(),
        "backend error: git operation failed: m\ncommand: git push (main)"
    );
    assert_eq!(
        Error::Sync(SyncError::Backend(SyncBackendError::RemoteNotFound)).message(),
        "backend error: remote data not found. Run `avpm sync push` first"
    );
    assert_eq!(
        Error::Sync(SyncError::Decrypt("ignored".into())).message(),
        "decryption failed: wrong master password or corrupted data"
    );
    assert_eq!(
        Error::Config(ConfigError::Load {
            path: "/c".into(),
            message: "m".into()
        })
        .message(),
        "failed to load config from /c: m"
    );
    assert_eq!(Error::Io("gone".into()).message(), "gone");
    assert_eq!(Error::Decrypt("m".into()).message(), "decryption failed: m");
    assert_eq!(Error::Encrypt("m".into()).message(), "encryption failed: m");
}

#[test]
fn unavailable_keyring_carries_the_hint() {
    let e = Error::Vault(VaultError::KeyringUnavailable {
        message: "no daemon".into(),
        source: "no daemon".into(),
    });
    assert_eq!(
        e.message(),
        format!("keyring unavailable: no daemon\n\n{}", keyring_hint())
    );
    assert!(keyring_hint().contains("gnome-keyring"));
    assert!(keyring_hint().contains("[boot]\nsystemd=true"));
}
