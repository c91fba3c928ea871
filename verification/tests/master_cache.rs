use avpm::commands::{
    cache_warning, prompt_step, require_master_passphrase, PassphraseStep,
};
use avpm::vault::master::{
    cache, clear, cleared, read_cached, read_cached_with, session_failure, session_passphrase,
    stored_passphrase, Cache, MasterCache, StoreCache, MASTER_USERNAME,
};
use avpm::vault::mock::MockStore;
use avpm::vault::{VaultError, VaultSecret, VaultStore};
use avpm::Error;

/// What the mock's `read` should return.
enum ReadBehavior {
    Hit(&'static str),
    Miss,
    CacheUnavailable,
    OtherError,
}

/// Scriptable test double for the master-cache carrier.
struct MockMasterCache {
    read: ReadBehavior,
    cache_ok: bool,
    clear_ok: bool,
}

impl MasterCache for MockMasterCache {
    fn read(&self) -> Result<Option<String>, Error> {
        match self.read {
            ReadBehavior::Hit(pw) => Ok(Some(pw.to_string())),
            ReadBehavior::Miss => Ok(None),
            ReadBehavior::CacheUnavailable => {
                Err(Error::Vault(VaultError::SessionCache("no daemon".into())))
            }
            ReadBehavior::OtherError => Err(Error::Other("boom".into())),
        }
    }

    fn cache(&mut self, _passphrase: &str) -> Result<(), Error> {
        if self.cache_ok {
            Ok(())
        } else {
            Err(Error::Vault(VaultError::SessionCache("no daemon".into())))
        }
    }

    fn clear(&mut self) -> Result<(), Error> {
        if self.clear_ok {
            Ok(())
        } else {
            Err(Error::Vault(VaultError::SessionCache("no daemon".into())))
        }
    }
}

fn mock(read: ReadBehavior) -> MockMasterCache {
    MockMasterCache {
        read,
        cache_ok: true,
        clear_ok: true,
    }
}

#[test]
fn read_cached_passes_through_cache_hit() {
    let cache = mock(ReadBehavior::Hit("master123"));
    assert_eq!(
        read_cached_with(&cache).unwrap().as_deref(),
        Some("master123")
    );
}

#[test]
fn read_cached_passes_through_cache_miss() {
    let cache = mock(ReadBehavior::Miss);
    assert_eq!(read_cached_with(&cache).unwrap(), None);
}

#[test]
fn read_cached_downgrades_cache_unavailable_to_miss() {
    // The regression guard for the WSL2 acceptance failure: a broken session
    // cache must never hard-fail `avpm get`/`sync` - it becomes a cache miss
    // (interactive re-prompt / exit 5 non-interactively).
    let cache = mock(ReadBehavior::CacheUnavailable);
    assert_eq!(read_cached_with(&cache).unwrap(), None);
}

#[test]
fn read_cached_propagates_unexpected_errors() {
    let cache = mock(ReadBehavior::OtherError);
    assert!(read_cached_with(&cache).is_err());
    assert!(read_cached(&cache).is_err());
}

#[test]
fn cache_failures_propagate_for_the_unlock_warning() {
    // `avpm unlock` turns this into a warning; if we swallowed it, users would
    // never learn their unlock won't persist.
    let mut carrier = MockMasterCache {
        read: ReadBehavior::Miss,
        cache_ok: false,
        clear_ok: true,
    };
    assert!(cache(&mut carrier, "master123").is_err());
    assert!(cache(&mut mock(ReadBehavior::Miss), "master123").is_ok());
}

#[test]
fn clear_success_and_failure_are_passthrough() {
    let mut ok = MockMasterCache {
        read: ReadBehavior::Miss,
        cache_ok: true,
        clear_ok: true,
    };
    assert!(clear(&mut ok).is_ok());
    let mut bad = MockMasterCache {
        read: ReadBehavior::Miss,
        cache_ok: true,
        clear_ok: false,
    };
    assert!(clear(&mut bad).is_err());
}

#[test]
fn session_cache_read_surfaces_corrupt_entries() {
    let err = session_passphrase(Some(b"\xff\xfe".to_vec())).unwrap_err();
    assert!(
        err.message().contains("not valid UTF-8"),
        "unexpected error: {}",
        err.message()
    );
    assert!(matches!(err, Error::Vault(VaultError::SessionCache(_))));
}

#[test]
fn session_items_hold_the_passphrase_as_text() {
    assert_eq!(session_passphrase(None).unwrap(), None);
    assert_eq!(
        session_passphrase(Some("pä".as_bytes().to_vec()))
            .unwrap()
            .as_deref(),
        Some("pä")
    );
    assert!(matches!(
        session_failure("x".into()),
        Error::Vault(VaultError::SessionCache(m)) if m == "x"
    ));
}

#[test]
fn the_master_entry_has_two_attributes() {
    let entry = Cache::master();
    assert_eq!(
        entry.attributes(),
        vec![("service", "avpm-master"), ("username", "master")]
    );
    let other = Cache::new("s", "u");
    assert_eq!(other.attributes(), vec![("service", "s"), ("username", "u")]);
}

#[test]
fn an_absent_keyring_entry_is_a_miss() {
    assert_eq!(
        stored_passphrase(Ok(VaultSecret::new("pw".into())))
            .unwrap()
            .as_deref(),
        Some("pw")
    );
    let absent = || Error::Vault(VaultError::NotFound("master".into()));
    assert_eq!(stored_passphrase(Err(absent())).unwrap(), None);
    assert!(stored_passphrase(Err(Error::Other("x".into()))).is_err());
    assert!(cleared(Err(absent())).is_ok());
    assert!(cleared(Ok(())).is_ok());
    assert!(cleared(Err(Error::Other("x".into()))).is_err());
}

#[test]
fn what_was_cached_last_is_read() {
    let mut carrier = StoreCache::new(MockStore::new(), MASTER_USERNAME);
    assert_eq!(read_cached(&carrier).unwrap(), None);
    cache(&mut carrier, "first").unwrap();
    cache(&mut carrier, "second").unwrap();
    assert_eq!(read_cached(&carrier).unwrap().as_deref(), Some("second"));
    assert_eq!(carrier.store.get("master").unwrap().as_str(), "second");
    assert_eq!(
        have(require_master_passphrase(None, None, &carrier, false, true, true)),
        "second"
    );
    clear(&mut carrier).unwrap();
    assert_eq!(read_cached(&carrier).unwrap(), None);
    // Clearing what is cleared is no failure.
    clear(&mut carrier).unwrap();
    assert!(carrier.store.is_empty());
}

/// A keyring out of reach.
struct Unreachable;

impl VaultStore for Unreachable {
    fn get(&self, _vault_id: &str) -> Result<VaultSecret, Error> {
        Err(unreachable_keyring())
    }
    fn set(&mut self, _vault_id: &str, _secret: &VaultSecret) -> Result<(), Error> {
        Err(unreachable_keyring())
    }
    fn delete(&mut self, _vault_id: &str) -> Result<(), Error> {
        Err(unreachable_keyring())
    }
}

fn unreachable_keyring() -> Error {
    Error::Vault(VaultError::KeyringUnavailable {
        message: "locked out".into(),
        source: "locked out".into(),
    })
}

#[test]
fn an_unreachable_keyring_is_a_miss_and_keeps_nothing() {
    let mut carrier = StoreCache::new(Unreachable, MASTER_USERNAME);
    assert_eq!(read_cached(&carrier).unwrap(), None);
    assert!(matches!(
        cache(&mut carrier, "p"),
        Err(Error::Vault(VaultError::KeyringUnavailable { .. }))
    ));
    assert!(clear(&mut carrier).is_err());
}

fn have(step: Result<PassphraseStep, Error>) -> String {
    match step {
        Ok(PassphraseStep::Have(p)) => p,
        _ => panic!("expected a passphrase"),
    }
}

#[test]
fn a_passphrase_is_looked_for_in_order() {
    let hit = mock(ReadBehavior::Hit("cached"));
    let memo = || Some("memo".to_string());
    let env = || Some("env".to_string());
    assert_eq!(
        have(require_master_passphrase(memo(), env(), &hit, false, true, true)),
        "memo"
    );
    assert_eq!(
        have(require_master_passphrase(None, env(), &hit, false, true, true)),
        "env"
    );
    // An empty variable counts as unset.
    assert_eq!(
        have(require_master_passphrase(
            None,
            Some(String::new()),
            &hit,
            false,
            true,
            true
        )),
        "cached"
    );
    let miss = mock(ReadBehavior::Miss);
    assert!(matches!(
        require_master_passphrase(None, None, &miss, true, false, false),
        Ok(PassphraseStep::SetNew)
    ));
    assert!(matches!(
        require_master_passphrase(None, None, &miss, true, true, false),
        Ok(PassphraseStep::Enter)
    ));
    let unavailable = mock(ReadBehavior::CacheUnavailable);
    assert!(matches!(
        require_master_passphrase(None, None, &unavailable, false, true, false),
        Err(Error::Vault(VaultError::Locked))
    ));
    let broken = mock(ReadBehavior::OtherError);
    assert!(matches!(
        require_master_passphrase(None, None, &broken, true, true, false),
        Err(Error::Other(_))
    ));
}

#[test]
fn nobody_is_prompted_without_a_terminal() {
    assert!(matches!(
        prompt_step(false, false, false),
        Err(Error::Vault(VaultError::Locked))
    ));
    assert!(matches!(
        prompt_step(true, false, true),
        Ok(PassphraseStep::Enter)
    ));
    assert_eq!(
        cache_warning(&Error::Vault(VaultError::SessionCache("no daemon".into()))),
        "warning: could not cache master passphrase (session cache unavailable: no daemon); \
         you may need to re-enter it later"
    );
}
