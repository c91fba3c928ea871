use avpm::cli::{Cli, Command, ConfigCmd, SyncCmd};
use avpm::commands::config_cmd::{
    line_or_default, line_required, overwrite_question, written, ConfigInit, InitStage,
    EDIT_TEMPLATE, WEBDAV_NOTE,
};
use avpm::commands::unlock::{nudges, plan, uncached, verdict, verify, UnlockPlan};
use avpm::commands::{
    auto_decide, daemon_unreachable_error, first_run_passphrase, get, index_handle,
    keyring_access, list, needs_store, remove, rename, resolve_auto_backend, resolve_command,
    resolve_effective_backend, AutoDecision, ResolvedBackend,
};
use avpm::config::{Config, StorageBackend};
use avpm::index::{IndexContents, VaultIndex};
use avpm::logging::default_filter;
use avpm::paths;
use avpm::sync::SyncError;
use avpm::vault::file::{FileImage, FileStore};
use avpm::vault::keyring::{map_keyring_error, KeyringFailure};
use avpm::vault::mock::MockStore;
use avpm::vault::ss::DefaultCollectionStatus;
use avpm::vault::{store_for_service, VaultError, VaultSecret, VaultStore};
use avpm::Error;

/// The first-run predicate's full decision table. The `(false, true)` cell is
/// the keyring backend: `store.age` never exists there, but `sync-base.age` does
/// after the first sync, so it must NOT be first run.
#[test]
fn first_run_passphrase_decision_table() {
    // Nothing on disk yet -> first run.
    assert!(first_run_passphrase(false, false));
    // store.age present (file backend, after first set) -> not first run.
    assert!(!first_run_passphrase(true, false));
    // sync-base.age present, store.age absent (keyring backend, post-sync)
    // -> not first run. This is the regression guard.
    assert!(!first_run_passphrase(false, true));
    // Both present -> not first run.
    assert!(!first_run_passphrase(true, true));
}

/// The `Auto` decision table. The `None` cells are the daemon-floor guard:
/// daemon unreachable must guide (hard stop), never silently fall back to file.
/// `(Some(Absent), gui=false, control=true)` is the headless keyring path: a
/// gnome-keyring control socket bootstraps the collection from the terminal, no
/// GUI needed.
#[test]
fn auto_decide_decision_table() {
    let (ready, locked, absent) = (
        DefaultCollectionStatus::Ready,
        DefaultCollectionStatus::ExistsLocked,
        DefaultCollectionStatus::Absent,
    );
    // Keyring-preferred (collection ready/locked; or absent + GUI; or absent +
    // control socket).
    assert_eq!(
        auto_decide(Some(ready), false, false),
        AutoDecision::Keyring
    );
    assert_eq!(auto_decide(Some(ready), true, true), AutoDecision::Keyring);
    assert_eq!(
        auto_decide(Some(locked), false, false),
        AutoDecision::Keyring
    );
    assert_eq!(
        auto_decide(Some(absent), true, false),
        AutoDecision::Keyring
    );
    assert_eq!(
        auto_decide(Some(absent), false, true),
        AutoDecision::Keyring
    );

    // Daemon up, collection absent, no GUI and no control socket (e.g. a
    // non-gnome-keyring provider on a headless box) -> file backend (works;
    // nudged in `avpm unlock`).
    assert_eq!(
        auto_decide(Some(absent), false, false),
        AutoDecision::AutoFileNoGui
    );

    // Daemon DOWN -> guidance, never silent file.
    assert_eq!(auto_decide(None, false, false), AutoDecision::NeedsGuidance);
    assert_eq!(auto_decide(None, true, true), AutoDecision::NeedsGuidance);
}

fn index() -> VaultIndex {
    VaultIndex::new("/data/index.json".into())
}

fn broken_index() -> VaultIndex {
    VaultIndex::with_contents(
        "/data/index.json".into(),
        IndexContents::Unreadable("denied".into()),
    )
}

fn cli(command: Option<Command>, vault_id: Option<&str>, positional: &[&str]) -> Cli {
    Cli {
        command,
        vault_id: vault_id.map(str::to_string),
        verbose: 0,
        quiet: false,
        config: None,
        positional: positional.iter().map(|s| s.to_string()).collect(),
    }
}

#[test]
fn three_forms_of_a_command_line() {
    assert!(matches!(
        resolve_command(cli(Some(Command::List), Some("dev"), &["x"])),
        Ok(Command::List)
    ));
    assert!(matches!(
        resolve_command(cli(None, Some("dev"), &["x"])),
        Ok(Command::Get { vault_id }) if vault_id == "dev"
    ));
    assert!(matches!(
        resolve_command(cli(None, None, &["prod", "y"])),
        Ok(Command::Get { vault_id }) if vault_id == "prod"
    ));
    assert!(matches!(
        resolve_command(cli(None, None, &[])),
        Err(Error::Other(m)) if m == "no command given. Run `avpm --help` for usage."
    ));
}

#[test]
fn some_commands_need_no_store() {
    assert!(!needs_store(&Command::List, true).unwrap());
    assert!(!needs_store(&Command::Unlock, false).unwrap());
    let config = Command::Config {
        cmd: ConfigCmd::Path,
    };
    assert!(!needs_store(&config, false).unwrap());
    assert!(needs_store(&Command::Tui, false).unwrap());
    let sync = Command::Sync {
        cmd: SyncCmd::Pull,
    };
    assert!(needs_store(&sync, true).unwrap());
    assert!(matches!(
        needs_store(&sync, false),
        Err(Error::Sync(SyncError::NotConfigured))
    ));
}

#[test]
fn get_prints_the_password_or_is_not_found() {
    let mut store = MockStore::new();
    store.seed("dev", "pw");
    assert_eq!(get::execute(&store, "dev").ok().unwrap().as_str(), "pw");
    assert_eq!(get::execute(&store, "nope").err().unwrap().exit_code(), 2);
}

#[test]
fn list_says_where_there_is_nothing() {
    let mut idx = index();
    let empty = list::execute(&idx).ok().unwrap();
    assert!(empty.lines.is_empty());
    assert_eq!(empty.notice, Some("No vault-ids found"));
    idx.add("prod").unwrap();
    idx.add("dev").unwrap();
    let two = list::execute(&idx).ok().unwrap();
    assert_eq!(two.lines, vec!["dev", "prod"]);
    assert!(two.notice.is_none());
    assert!(list::execute(&broken_index()).is_err());
}

#[test]
fn set_writes_store_and_index() {
    let (mut store, mut idx) = (MockStore::new(), index());
    assert_eq!(avpm::commands::set::overwrite_question(&store, "dev"), None);
    let told = avpm::commands::set::execute(&mut store, &mut idx, "dev", &VaultSecret::new("pw".into())).unwrap();
    assert_eq!(told, "set 'dev'");
    assert_eq!(store.get("dev").ok().unwrap().as_str(), "pw");
    assert_eq!(idx.list().unwrap(), vec!["dev"]);
    assert_eq!(
        avpm::commands::set::overwrite_question(&store, "dev").as_deref(),
        Some("Overwrite 'dev'?")
    );
    assert!(avpm::commands::set::execute(
        &mut store,
        &mut broken_index(),
        "x",
        &VaultSecret::new("pw".into())
    )
    .is_err());
}

#[test]
fn set_generates_on_request() {
    assert!(avpm::commands::set::generated(false, Some(0), false).ok().unwrap().is_none());
    let secret = avpm::commands::set::generated(true, None, true).ok().unwrap().unwrap();
    assert_eq!(secret.len(), 32);
    assert!(secret.as_str().chars().all(|c| c.is_ascii_alphanumeric()));
    let secret = avpm::commands::set::generated(true, Some(7), false).ok().unwrap().unwrap();
    assert_eq!(secret.len(), 7);
    assert!(matches!(
        avpm::commands::set::generated(true, Some(0), false),
        Err(Error::Other(m)) if m == "password length must be > 0"
    ));
}

#[test]
fn an_answer_proves_that_a_store_opened() {
    assert!(verdict(Ok(VaultSecret::new("x".into()))).is_ok());
    assert!(verdict(Err(Error::Vault(VaultError::NotFound("x".into())))).is_ok());
    assert!(matches!(
        verdict(Err(Error::Vault(VaultError::StoreDecrypt))),
        Err(Error::Vault(VaultError::StoreDecrypt))
    ));
}

#[test]
fn remove_warns_about_an_absent_id() {
    let (mut store, mut idx) = (MockStore::new(), index());
    store.seed("dev", "pw");
    idx.add("dev").unwrap();
    idx.add("stale").unwrap();
    assert!(remove::check_ids(&vec!["dev".into()]).is_ok());
    assert!(matches!(
        remove::check_ids(&vec![]),
        Err(Error::Other(m)) if m == "rm requires at least one vault-id"
    ));
    assert_eq!(
        remove::question("dev", false).as_deref(),
        Some("Delete 'dev'?")
    );
    assert_eq!(remove::question("dev", true), None);
    assert_eq!(remove::skipped("dev"), "skipped 'dev'");
    assert_eq!(
        remove::execute(&mut store, &mut idx, "dev").unwrap(),
        "removed 'dev'"
    );
    assert_eq!(
        remove::execute(&mut store, &mut idx, "stale").unwrap(),
        "warning: 'stale' not found, skipping"
    );
    assert!(store.is_empty());
    assert!(idx.list().unwrap().is_empty());
}

#[test]
fn rename_moves_the_password() {
    let (mut store, mut idx) = (MockStore::new(), index());
    store.seed("old", "pw");
    store.seed("other", "x");
    idx.add("old").unwrap();
    let secret = rename::source(&store, "old").ok().unwrap();
    assert!(rename::source(&store, "nope").is_err());
    assert_eq!(rename::overwrite_question(&store, "new"), None);
    assert_eq!(
        rename::overwrite_question(&store, "other").as_deref(),
        Some("Destination 'other' exists. Overwrite?")
    );
    let told = rename::execute(&mut store, &mut idx, "old", "new", &secret).unwrap();
    assert_eq!(told, "renamed 'old' -> 'new'");
    assert_eq!(store.vault_ids(), vec!["new", "other"]);
    assert_eq!(store.get("new").ok().unwrap().as_str(), "pw");
    assert_eq!(idx.list().unwrap(), vec!["new"]);
    // The old id must be there: the new one is written and indexed by then.
    assert!(matches!(
        rename::execute(&mut store, &mut idx, "gone", "third", &secret),
        Err(Error::Vault(VaultError::NotFound(id))) if id == "gone"
    ));
    assert_eq!(store.get("third").ok().unwrap().as_str(), "pw");
    assert_eq!(idx.list().unwrap(), vec!["new", "third"]);
    // An index that cannot be used stops it behind the write.
    let mut broken = broken_index();
    assert!(rename::execute(&mut store, &mut broken, "new", "fourth", &secret).is_err());
    assert_eq!(store.get("new").ok().unwrap().as_str(), "pw");
    assert_eq!(store.get("fourth").ok().unwrap().as_str(), "pw");
    assert!(!broken.changed);
}

#[test]
fn backends_are_settled_or_probed() {
    let mut cfg = Config::default();
    assert_eq!(resolve_effective_backend(&cfg), None);
    cfg.storage.backend = StorageBackend::File;
    assert_eq!(
        resolve_effective_backend(&cfg),
        Some(ResolvedBackend::File)
    );
    cfg.storage.backend = StorageBackend::Keyring;
    assert_eq!(
        resolve_effective_backend(&cfg),
        Some(ResolvedBackend::Keyring)
    );
    assert_eq!(
        resolve_auto_backend(Ok(DefaultCollectionStatus::ExistsLocked), false, false).unwrap(),
        ResolvedBackend::Keyring
    );
    assert_eq!(
        resolve_auto_backend(Ok(DefaultCollectionStatus::Absent), false, false).unwrap(),
        ResolvedBackend::AutoFileNoGui
    );
    let down = Error::Vault(VaultError::KeyringUnavailable {
        message: "m".into(),
        source: "s".into(),
    });
    match resolve_auto_backend(Err(down), true, true) {
        Err(Error::Vault(VaultError::KeyringUnavailable { message, source })) => {
            assert!(message.starts_with("Secret Service daemon is unreachable"));
            assert!(message.contains("AVPM_MASTER_PASSPHRASE"));
            assert_eq!(source, "s");
        }
        other => panic!("unexpected {other:?}"),
    }
    assert!(matches!(
        daemon_unreachable_error(Error::Other("x".into())),
        Error::Other(m) if m == "x"
    ));
}

#[test]
fn a_locked_keyring_refuses_scripts() {
    let locked = Ok(DefaultCollectionStatus::ExistsLocked);
    assert!(keyring_access(&locked, true).is_ok());
    let refused = keyring_access(&locked, false).unwrap_err();
    assert_eq!(refused.exit_code(), 6);
    assert!(keyring_access(&Ok(DefaultCollectionStatus::Ready), false).is_ok());
    assert!(keyring_access(&Err(Error::Other("x".into())), false).is_ok());
}

#[test]
fn unlock_plans_by_backend() {
    assert_eq!(plan(ResolvedBackend::Keyring, true), UnlockPlan::Keyring);
    assert_eq!(
        plan(ResolvedBackend::File, true),
        UnlockPlan::VerifyPassphrase
    );
    assert_eq!(
        plan(ResolvedBackend::AutoFileNoGui, false),
        UnlockPlan::SetPassphrase
    );
    assert!(nudges(ResolvedBackend::AutoFileNoGui));
    assert!(!nudges(ResolvedBackend::File));
    assert!(uncached(&Error::Other("x".into())).contains("could not be cached (x)"));
}

#[test]
fn unlock_verifies_the_passphrase() {
    let mut store = FileStore::new("/s".into(), "right".into());
    assert!(verify(&store).is_ok());
    store.set("dev", &VaultSecret::new("pw".into())).unwrap();
    assert!(verify(&store).is_ok());
    let text = match store.image {
        FileImage::Text(t) => t,
        _ => panic!("expected a text"),
    };
    let wrong = FileStore::with_image("/s".into(), "wrong".into(), FileImage::Text(text));
    assert_eq!(verify(&wrong).unwrap_err().exit_code(), 4);
}

fn init(answers: &[&str]) -> ConfigInit {
    let mut dialogue = ConfigInit::new();
    for line in answers {
        assert!(dialogue.question().is_some());
        dialogue = dialogue.answer(line);
    }
    assert!(dialogue.question().is_none());
    dialogue
}

#[test]
fn config_init_writes_what_was_answered() {
    match init(&["\n", "n"]).stage {
        InitStage::Write { toml, note } => {
            assert_eq!(toml, "[default]\nservice = \"avpm\"\n");
            assert!(note.is_none());
        }
        _ => panic!("expected a file"),
    }
    match init(&["mine", " Y ", "", "git@host:r.git "]).stage {
        InitStage::Write { toml, note } => {
            assert_eq!(
                toml,
                "[default]\nservice = \"mine\"\n\n[sync]\nbackend = \"git\"\n[sync.git]\nremote = \"git@host:r.git\"\n"
            );
            assert!(note.is_none());
            let cfg = Config::load(Some("/c"), Some(&toml)).unwrap();
            assert_eq!(cfg.service(), "mine");
            assert_eq!(
                cfg.sync_config().unwrap().git.as_ref().unwrap().remote,
                "git@host:r.git"
            );
        }
        _ => panic!("expected a file"),
    }
    match init(&["", "yes", "webdav", "https://x", "me"]).stage {
        InitStage::Write { toml, note } => {
            assert!(toml.ends_with(
                "[sync.webdav]\nurl = \"https://x\"\nusername = \"me\"\n"
            ));
            assert_eq!(note, Some(WEBDAV_NOTE));
        }
        _ => panic!("expected a file"),
    }
}

#[test]
fn config_init_refuses_what_it_cannot_use() {
    for (answers, text) in [
        (vec!["", "y", "ftp"], "unknown backend 'ftp' (expected git|webdav)"),
        (vec!["", "y", "git", " "], "remote is required"),
        (vec!["", "y", "webdav", ""], "url is required"),
        (vec!["", "y", "webdav", "u", ""], "username is required"),
    ] {
        match init(&answers).stage {
            InitStage::Failed(e) => assert_eq!(e.message(), text),
            _ => panic!("expected a failure"),
        }
    }
}

#[test]
fn config_lines_are_trimmed() {
    assert_eq!(line_or_default("  a b \n", "d"), "a b");
    assert_eq!(line_or_default(" \t\n", "d"), "d");
    assert_eq!(line_required(" v ", "n").unwrap(), "v");
    assert!(line_required(" ", "n").is_err());
    assert_eq!(overwrite_question("/c"), "/c exists. Overwrite?");
    assert_eq!(written("/c"), "wrote /c");
    assert_eq!(
        Config::load(Some("/c"), Some(EDIT_TEMPLATE))
            .unwrap()
            .service(),
        "avpm"
    );
}

#[test]
fn paths_lie_under_the_directories_of_the_user() {
    assert_eq!(paths::join("/a", "b"), "/a/b");
    assert_eq!(paths::join("/a/", "b"), "/a/b");
    assert_eq!(paths::join("", "b"), "b");
    assert_eq!(paths::app_dir_in(Some("/x".into())), "/x/avpm");
    assert_eq!(paths::app_dir_in(None), "./avpm");
    assert_eq!(
        paths::app_file_in(Some("/x".into()), "store.age"),
        "/x/avpm/store.age"
    );
    if let Some(dir) = dirs::config_dir() {
        let dir = dir.to_str().unwrap().to_string();
        assert_eq!(paths::config_dir(), format!("{dir}/avpm"));
        assert_eq!(paths::config_path(), format!("{dir}/avpm/config.toml"));
    }
    if let Some(dir) = dirs::data_dir() {
        let dir = dir.to_str().unwrap().to_string();
        assert_eq!(paths::data_dir(), format!("{dir}/avpm"));
        assert_eq!(paths::index_path(), format!("{dir}/avpm/index.json"));
        assert_eq!(paths::store_path(), format!("{dir}/avpm/store.age"));
        assert_eq!(paths::sync_base_path(), format!("{dir}/avpm/sync-base.age"));
        assert_eq!(index_handle().path(), format!("{dir}/avpm/index.json"));
    }
    if let Some(dir) = dirs::cache_dir() {
        let dir = dir.to_str().unwrap().to_string();
        assert_eq!(paths::cache_dir(), format!("{dir}/avpm"));
        assert_eq!(paths::sync_tmp_dir(), format!("{dir}/avpm/sync-tmp"));
    }
}

#[test]
fn verbosity_maps_to_levels() {
    assert_eq!(default_filter(0, false), "avpm=info");
    assert_eq!(default_filter(1, false), "avpm=info");
    assert_eq!(default_filter(2, false), "avpm=debug");
    assert_eq!(default_filter(9, false), "avpm=trace");
    assert_eq!(default_filter(3, true), "avpm=error");
}

#[test]
fn keyring_failures_keep_their_meaning() {
    assert!(matches!(
        map_keyring_error("dev", KeyringFailure::NoEntry),
        Error::Vault(VaultError::NotFound(id)) if id == "dev"
    ));
    for failure in [
        KeyringFailure::NoStorageAccess("c".into()),
        KeyringFailure::PlatformFailure("c".into()),
    ] {
        assert!(matches!(
            map_keyring_error("dev", failure),
            Error::Vault(VaultError::KeyringUnavailable { message, source })
                if message == "c" && source == "c"
        ));
    }
    assert!(matches!(
        map_keyring_error("dev", KeyringFailure::Other("c".into())),
        Error::Vault(VaultError::KeyringFailed(m)) if m == "c"
    ));
    assert_eq!(store_for_service("svc").service(), "svc");
}
