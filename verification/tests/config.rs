use avpm::config::{
    backend_kind, storage_backend, BackendKind, Config, ConfigError, GitConfig, RawConfig,
    StorageBackend,
};
use avpm::Error;

fn load(toml: &str) -> Result<Config, Error> {
    Config::load(Some("/tmp/config.toml"), Some(toml))
}

#[test]
fn missing_file_uses_defaults() {
    let cfg = Config::load(Some("/tmp/absent.toml"), None).unwrap();
    assert_eq!(cfg.service(), "avpm");
    assert!(cfg.sync_config().is_none());
}

#[test]
fn parses_minimal_config() {
    let cfg = load("[default]\nservice = \"custom\"\n").unwrap();
    assert_eq!(cfg.service(), "custom");
}

#[test]
fn parses_sync_git_config() {
    let cfg = load(
        "[sync]\nbackend = \"git\"\n[sync.git]\nremote = \"git@github.com:me/v.git\"\n",
    )
    .unwrap();
    let sync = cfg.sync_config().expect("sync configured");
    assert_eq!(sync.backend, BackendKind::Git);
    let git = sync.git.as_ref().expect("git configured");
    assert_eq!(git.remote, "git@github.com:me/v.git");
    assert_eq!(git.path, "vault.age"); // default
    assert_eq!(git.branch, "main"); // default
}

#[test]
fn parses_sync_webdav_config() {
    let cfg = load(
        "[sync]\nbackend = \"webdav\"\n[sync.webdav]\nurl = \"https://x/dav/\"\nusername = \"me\"\n",
    )
    .unwrap();
    let sync = cfg.sync_config().unwrap();
    assert_eq!(sync.backend, BackendKind::WebDav);
    let webdav = sync.webdav.as_ref().unwrap();
    assert_eq!(webdav.url, "https://x/dav/");
    assert_eq!(webdav.username, "me");
}

#[test]
fn storage_defaults_to_auto_when_absent() {
    let cfg = load("[default]\nservice = \"avpm\"\n").unwrap();
    assert_eq!(cfg.storage_config().backend, StorageBackend::Auto);
}

#[test]
fn parses_storage_backend_explicit() {
    for (toml, expected) in [
        ("[storage]\nbackend = \"auto\"\n", StorageBackend::Auto),
        (
            "[storage]\nbackend = \"keyring\"\n",
            StorageBackend::Keyring,
        ),
        ("[storage]\nbackend = \"file\"\n", StorageBackend::File),
    ] {
        let cfg = load(toml).unwrap();
        assert_eq!(
            cfg.storage_config().backend,
            expected,
            "failed for `{toml}`"
        );
    }
}

#[test]
fn clipboard_defaults_to_45_seconds() {
    let cfg = load("[default]\nservice = \"avpm\"\n").unwrap();
    assert_eq!(cfg.clipboard_config().clear_seconds, 45);
}

#[test]
fn parses_clipboard_clear_seconds() {
    let cfg = load("[clipboard]\nclear_seconds = 10\n").unwrap();
    assert_eq!(cfg.clipboard_config().clear_seconds, 10);
}

#[test]
fn an_empty_file_is_the_default() {
    assert_eq!(load("").unwrap(), Config::default());
}

#[test]
fn explicit_git_path_and_branch_are_kept() {
    let cfg = load(
        "[sync]\nbackend = \"git\"\n[sync.git]\nremote = \"r\"\npath = \"p.age\"\nbranch = \"trunk\"\n",
    )
    .unwrap();
    let git = cfg.sync_config().unwrap().git.as_ref().unwrap();
    assert_eq!(git.path, "p.age");
    assert_eq!(git.branch, "trunk");
    assert_eq!(GitConfig::default().remote, "");
}

#[test]
fn unknown_backends_are_load_errors() {
    for toml in [
        "[storage]\nbackend = \"cloud\"\n",
        "[storage]\nbackend = \"Auto\"\n",
        "[sync]\nbackend = \"ftp\"\n",
    ] {
        match load(toml) {
            Err(Error::Config(ConfigError::Load { path, message })) => {
                assert_eq!(path, "/tmp/config.toml");
                assert!(message.contains("does not have variant constructor"), "{message}");
            }
            other => panic!("expected a load error for `{toml}`, got {other:?}"),
        }
    }
}

#[test]
fn missing_required_values_are_load_errors() {
    for (toml, key) in [
        ("[sync]\n[sync.git]\nremote = \"r\"\n", "sync.backend"),
        ("[sync]\nbackend = \"git\"\n[sync.git]\npath = \"p\"\n", "sync.git.remote"),
        (
            "[sync]\nbackend = \"webdav\"\n[sync.webdav]\nurl = \"u\"\n",
            "sync.webdav.username",
        ),
    ] {
        match load(toml) {
            Err(Error::Config(ConfigError::Load { message, .. })) => {
                assert!(message.contains(key), "{message}");
            }
            other => panic!("expected a load error for `{toml}`, got {other:?}"),
        }
    }
}

#[test]
fn malformed_toml_is_a_load_error() {
    assert!(matches!(
        load("[default\n"),
        Err(Error::Config(ConfigError::Load { .. }))
    ));
    assert!(matches!(
        load("[clipboard]\nclear_seconds = 70000\n"),
        Err(Error::Config(ConfigError::Load { .. }))
    ));
    assert!(matches!(
        load("sync = 3\n"),
        Err(Error::Config(ConfigError::Load { .. }))
    ));
}

#[test]
fn backend_names_are_exact() {
    assert_eq!(storage_backend("file"), Some(StorageBackend::File));
    assert_eq!(storage_backend("FILE"), None);
    assert_eq!(backend_kind("webdav"), Some(BackendKind::WebDav));
    assert_eq!(backend_kind("git"), Some(BackendKind::Git));
    assert_eq!(backend_kind(""), None);
}

#[test]
fn of_two_spellings_of_one_key_the_later_one_counts() {
    for _ in 0..20 {
        let cfg = load("\"default.service\" = \"a\"\n[default]\nservice = \"b\"\n").unwrap();
        assert_eq!(cfg.service(), "b");
        let cfg = load(
            "\"clipboard.clear_seconds\" = 1\n[clipboard]\nclear_seconds = 2\n[default]\nservice = \"s\"\n",
        )
        .unwrap();
        assert_eq!(cfg.clipboard_config().clear_seconds, 2);
        assert_eq!(cfg.service(), "s");
    }
    // A path alone is as good as a section.
    let cfg = load("\"default.service\" = \"a\"\n").unwrap();
    assert_eq!(cfg.service(), "a");
}

#[test]
fn keys_that_lead_too_far_are_refused() {
    let message = |toml: &str| match load(toml) {
        Err(Error::Config(ConfigError::Load { message, .. })) => message,
        other => panic!("unexpected {other:?}"),
    };
    assert_eq!(
        message("x = 1\n\"a[9223372036854775807]\" = 1\n\"b[-1]\" = 2\n"),
        "key `a[9223372036854775807]` has an index or leads too far down"
    );
    let deep = "a".to_string() + &".a".repeat(81);
    assert_eq!(
        message(&format!("\"{deep}\" = 1\n")),
        format!("key `{deep}` has an index or leads too far down")
    );
    let less = "a".to_string() + &".a".repeat(80);
    assert!(load(&format!("\"{less}\" = 1\n")).is_ok());
    // Brackets elsewhere are nothing special.
    let cfg = load("[default]\nservice = \"s[1]\"\n\"x[1]\" = 2\n").unwrap();
    assert_eq!(cfg.service(), "s[1]");
}

#[test]
fn a_name_may_be_the_one_key_of_a_table() {
    let cfg = load("[storage.backend]\nfile = 1\n").unwrap();
    assert_eq!(cfg.storage_config().backend, StorageBackend::File);
    let cfg = load("[sync.backend.webdav]\n[sync.webdav]\nurl = \"u\"\nusername = \"n\"\n").unwrap();
    assert_eq!(cfg.sync_config().unwrap().backend, BackendKind::WebDav);
    assert!(load("[storage.backend]\nfile = 1\nauto = 2\n").is_err());
    assert!(load("[storage.backend]\ncloud = 1\n").is_err());
    assert!(load("[storage]\nbackend = [\"file\"]\n").is_err());
    assert!(load("[storage]\nbackend = 1\n").is_err());
}

#[test]
fn a_section_may_list_its_values_in_order() {
    let cfg = load(
        "default = [\"svc\"]\nstorage = []\nclipboard = [7, \"more\"]\n\
         sync = [\"git\", [\"r\", \"p\"], {url = \"u\", username = \"n\"}]\n",
    )
    .unwrap();
    assert_eq!(cfg.service(), "svc");
    assert_eq!(cfg.storage_config().backend, StorageBackend::Auto);
    assert_eq!(cfg.clipboard_config().clear_seconds, 7);
    let sync = cfg.sync_config().unwrap();
    assert_eq!(sync.backend, BackendKind::Git);
    let git = sync.git.as_ref().unwrap();
    assert_eq!((git.remote.as_str(), git.path.as_str()), ("r", "p"));
    assert_eq!(git.branch, "main");
    assert_eq!(sync.webdav.as_ref().unwrap().url, "u");
    let cfg = load("sync = [\"webdav\"]\n").unwrap();
    assert!(cfg.sync_config().unwrap().git.is_none());
    assert!(load("sync = []\n").is_err());
    assert!(load("default = 3\n").is_err());
}

#[test]
fn a_refusal_names_the_first_thing_that_is_wrong() {
    let raw = || RawConfig {
        service: None,
        storage_backend: None,
        clear_seconds: None,
        sync: true,
        sync_backend: Some("git".into()),
        git: true,
        git_remote: None,
        git_path: None,
        git_branch: None,
        webdav: true,
        webdav_url: None,
        webdav_username: None,
    };
    let refused = |raw| Config::resolve(raw).err().unwrap();
    assert_eq!(
        refused(RawConfig {
            storage_backend: Some("cloud".into()),
            ..raw()
        }),
        "enum StorageBackend does not have variant constructor cloud for key `storage.backend`"
    );
    assert_eq!(
        refused(RawConfig {
            sync_backend: None,
            ..raw()
        }),
        "missing configuration field \"sync.backend\""
    );
    assert_eq!(
        refused(RawConfig {
            sync_backend: Some("ftp".into()),
            ..raw()
        }),
        "enum BackendKind does not have variant constructor ftp for key `sync.backend`"
    );
    assert_eq!(refused(raw()), "missing configuration field \"sync.git.remote\"");
    let remote = || RawConfig {
        git_remote: Some("r".into()),
        ..raw()
    };
    assert_eq!(refused(remote()), "missing configuration field \"sync.webdav.url\"");
    assert_eq!(
        refused(RawConfig {
            webdav_url: Some("u".into()),
            ..remote()
        }),
        "missing configuration field \"sync.webdav.username\""
    );
}

#[test]
fn resolving_values_fills_in_defaults() {
    let raw = RawConfig {
        service: None,
        storage_backend: Some("keyring".into()),
        clear_seconds: Some(0),
        sync: true,
        sync_backend: Some("webdav".into()),
        git: false,
        git_remote: None,
        git_path: None,
        git_branch: None,
        webdav: true,
        webdav_url: Some("u".into()),
        webdav_username: Some("n".into()),
    };
    let cfg = Config::resolve(raw).unwrap();
    assert_eq!(cfg.service(), "avpm");
    assert_eq!(cfg.storage_config().backend, StorageBackend::Keyring);
    assert_eq!(cfg.clipboard_config().clear_seconds, 0);
    let sync = cfg.sync_config().unwrap();
    assert!(sync.git.is_none());
    assert_eq!(sync.webdav.as_ref().unwrap().username, "n");
}
