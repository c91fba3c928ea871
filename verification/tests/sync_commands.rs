use avpm::commands::sync_cmd::{
    choice_prompt, conflict_choice, conflict_lines, conflict_lines_at, conflict_report,
    fingerprint, pull_report, push_report, status_report, target, SyncTarget,
};
use avpm::config::{BackendKind, Config, GitConfig, SyncConfig, WebDavConfig};
use avpm::index::VaultIndex;
use avpm::sync::backend::MockBackend;
use avpm::sync::encrypt::{decrypt, encrypt};
use avpm::sync::engine::{KeepLocalResolver, SyncGoal, SyncRun, SyncStage, SyncSummary};
use avpm::sync::manifest::{Manifest, VaultEntry};
use avpm::sync::merge::{ConflictResolution, ConflictResolver};
use avpm::sync::{PullSummary, PushSummary, StatusSummary, SyncBackendError, SyncEngine, SyncError};
use avpm::vault::mock::MockStore;
use avpm::vault::{VaultSecret, VaultStore};
use avpm::Error;

fn entry(pw: &str) -> VaultEntry {
    VaultEntry::new(pw.to_string(), jiff::Timestamp::from_second(1).unwrap())
}

fn render(m: &Manifest) -> Vec<u8> {
    let mut vaults = serde_json::Map::new();
    for (id, e) in m.entries() {
        vaults.insert(id.clone(), serde_json::Value::String(e.password.clone()));
    }
    let mut top = serde_json::Map::new();
    top.insert("version".into(), serde_json::Value::from(m.version));
    top.insert("vaults".into(), serde_json::Value::Object(vaults));
    serde_json::to_vec(&serde_json::Value::Object(top)).unwrap()
}

fn parse(bytes: &[u8]) -> Result<Manifest, String> {
    let top: serde_json::Value = serde_json::from_slice(bytes).map_err(|e| e.to_string())?;
    let mut m = Manifest::new();
    m.version = top["version"].as_u64().ok_or("no version")? as u32;
    for (id, pw) in top["vaults"].as_object().ok_or("no vaults")? {
        m.vaults
            .insert(id.clone(), entry(pw.as_str().ok_or("no text")?));
    }
    Ok(m)
}

/// A device: what it stores, and the file of its base manifest.
struct Device {
    store: MockStore,
    index: VaultIndex,
    base: Option<Vec<u8>>,
}

impl Device {
    fn new(pairs: &[(&str, &str)]) -> Self {
        let mut device = Device {
            store: MockStore::new(),
            index: VaultIndex::new("/data/index.json".into()),
            base: None,
        };
        for (id, pw) in pairs {
            device.write(id, pw);
        }
        device
    }

    fn write(&mut self, id: &str, pw: &str) {
        self.store.set(id, &VaultSecret::new(pw.into())).unwrap();
        self.index.add(id).unwrap();
    }

    fn drop_id(&mut self, id: &str) {
        self.store.delete(id).unwrap();
        self.index.remove(id).unwrap();
    }

    /// Drive a run to its end, as the program around the library does.
    fn drive<R: ConflictResolver>(
        &mut self,
        mut run: SyncRun,
        remote: &mut MockBackend,
        resolver: &mut R,
    ) -> Result<SyncSummary, Error> {
        loop {
            run = match &run.stage {
                SyncStage::Probe => run.probed(remote.blob_exists()),
                SyncStage::Pull => run.pulled(remote.pull()),
                SyncStage::ParseRemote(plain) => {
                    let parsed = parse(plain);
                    run.remote_parsed(parsed)
                }
                SyncStage::ReadBase => run.base_read(
                    self.base.clone(),
                    &mut self.store,
                    &mut self.index,
                    resolver,
                ),
                SyncStage::ParseBase(plain) => {
                    let parsed = parse(plain);
                    run.base_parsed(parsed, &mut self.store, &mut self.index, resolver)
                }
                SyncStage::PersistIndex => run.index_persisted(Ok(())),
                SyncStage::Render => {
                    let json = render(&run.local);
                    run.rendered(Ok(json))
                }
                SyncStage::Upload(armored) => {
                    let done = match &run.goal {
                        SyncGoal::Push { message } => {
                            remote.push(armored.as_bytes(), message.as_deref())
                        }
                        _ => panic!("only a push uploads"),
                    };
                    run.uploaded(done)
                }
                SyncStage::SaveBase(armored) => {
                    self.base = Some(armored.clone().into_bytes());
                    run.base_saved(Ok(()))
                }
                SyncStage::Done(_) | SyncStage::Failed(_) => break,
            };
        }
        match run.stage {
            SyncStage::Done(summary) => Ok(summary),
            SyncStage::Failed(e) => Err(e),
            _ => unreachable!(),
        }
    }

    fn push(&mut self, remote: &mut MockBackend, passphrase: &str) -> Result<PushSummary, Error> {
        let engine = SyncEngine::new(());
        let run = engine.push(&self.store, &self.index, passphrase, None);
        match self.drive(run, remote, &mut KeepLocalResolver::new())? {
            SyncSummary::Push(summary) => Ok(summary),
            _ => panic!("expected a push summary"),
        }
    }

    fn pull<R: ConflictResolver>(
        &mut self,
        remote: &mut MockBackend,
        passphrase: &str,
        resolver: &mut R,
    ) -> Result<PullSummary, Error> {
        let run = SyncEngine::new(()).pull(passphrase);
        match self.drive(run, remote, resolver)? {
            SyncSummary::Pull(summary) => Ok(summary),
            _ => panic!("expected a pull summary"),
        }
    }

    fn status(&mut self, remote: &mut MockBackend) -> StatusSummary {
        let run = SyncEngine::new(()).status(&self.store, &self.index, "pw");
        match self.drive(run, remote, &mut KeepLocalResolver::new()) {
            Ok(SyncSummary::Status(summary)) => summary,
            _ => panic!("expected a status summary"),
        }
    }
}

struct TakeRemote;
impl ConflictResolver for TakeRemote {
    fn resolve(
        &mut self,
        _: &str,
        _: Option<&VaultEntry>,
        _: Option<&VaultEntry>,
        _: Option<&VaultEntry>,
    ) -> Result<ConflictResolution, Error> {
        Ok(ConflictResolution::KeepRemote)
    }
}

#[test]
fn a_second_device_gets_what_the_first_pushed() {
    let mut remote = MockBackend::new();
    let mut one = Device::new(&[("dev", "a"), ("prod", "b")]);
    let pushed = one.push(&mut remote, "pw").unwrap();
    assert_eq!(pushed.pushed_count, 2);
    let blob = remote.snapshot().unwrap();
    assert_eq!(pushed.ciphertext_size, blob.len());
    assert!(!String::from_utf8(blob).unwrap().contains("prod"));

    let mut two = Device::new(&[]);
    let pulled = two
        .pull(&mut remote, "pw", &mut KeepLocalResolver::new())
        .unwrap();
    assert_eq!(pulled.added, vec!["dev", "prod"]);
    assert_eq!(two.store.get("prod").ok().unwrap().as_str(), "b");
    assert_eq!(two.index.list().unwrap(), vec!["dev", "prod"]);

    let after = two.status(&mut remote);
    assert_eq!(after.unchanged, vec!["dev", "prod"]);
}

#[test]
fn a_push_takes_the_other_side_in_first() {
    let mut remote = MockBackend::new();
    let mut one = Device::new(&[("a", "1")]);
    one.push(&mut remote, "pw").unwrap();
    let mut two = Device::new(&[("b", "2")]);
    assert_eq!(two.push(&mut remote, "pw").unwrap().pushed_count, 2);
    assert_eq!(two.store.vault_ids(), vec!["a", "b"]);
    assert_eq!(one.status(&mut remote).remote_only, vec!["b"]);
}

#[test]
fn a_conflicting_push_touches_nothing() {
    let mut remote = MockBackend::new();
    let mut one = Device::new(&[("dev", "a")]);
    one.push(&mut remote, "pw").unwrap();
    let before = remote.snapshot();
    let mut two = Device::new(&[("dev", "b")]);
    match two.push(&mut remote, "pw") {
        Err(Error::Sync(SyncError::Conflict(ids))) => assert_eq!(ids, vec!["dev"]),
        _ => panic!("expected a conflict"),
    }
    assert_eq!(remote.snapshot(), before);
    assert_eq!(two.store.get("dev").ok().unwrap().as_str(), "b");
    assert!(two.base.is_none());
}

#[test]
fn a_pull_settles_a_conflict_for_the_push() {
    let mut remote = MockBackend::new();
    let mut theirs = Manifest::new();
    theirs.vaults.insert("dev".into(), entry("a"));
    remote.seed(encrypt(&render(&theirs), "pw").unwrap().as_bytes());
    let mut two = Device::new(&[("dev", "b")]);
    let pulled = two.pull(&mut remote, "pw", &mut TakeRemote).unwrap();
    assert_eq!(pulled.conflicts, vec!["dev"]);
    assert_eq!(pulled.updated, vec!["dev"]);
    assert_eq!(two.push(&mut remote, "pw").unwrap().pushed_count, 1);
}

#[test]
fn a_pull_keeps_what_only_this_device_has() {
    let mut remote = MockBackend::new();
    let mut one = Device::new(&[("a", "1")]);
    let pulled = one
        .pull(&mut remote, "pw", &mut KeepLocalResolver::new())
        .unwrap();
    assert_eq!(pulled.kept_local, vec!["a"]);
    // What was pulled is the state to compare with from then on.
    assert_eq!(one.status(&mut remote).conflicts, vec!["a"]);
}

#[test]
fn a_deletion_is_a_conflict_to_the_other_side() {
    let mut remote = MockBackend::new();
    let mut one = Device::new(&[("dev", "a")]);
    one.push(&mut remote, "pw").unwrap();
    one.drop_id("dev");
    let status = one.status(&mut remote);
    assert_eq!(status.conflicts, vec!["dev"]);
    let pulled = one.pull(&mut remote, "pw", &mut TakeRemote).unwrap();
    assert_eq!(pulled.updated, vec!["dev"]);
    assert_eq!(one.store.get("dev").ok().unwrap().as_str(), "a");
}

#[test]
fn a_wrong_passphrase_stops_a_pull() {
    let mut remote = MockBackend::new();
    let mut one = Device::new(&[("dev", "a")]);
    one.push(&mut remote, "pw").unwrap();
    let mut two = Device::new(&[]);
    assert!(matches!(
        two.pull(&mut remote, "other", &mut KeepLocalResolver::new()),
        Err(Error::Decrypt(_))
    ));
    assert!(two.store.is_empty());
}

#[test]
fn a_blob_that_is_no_text_or_no_manifest_is_refused() {
    let mut remote = MockBackend::new();
    remote.seed(&[0xff, 0xfe]);
    let mut one = Device::new(&[]);
    match one.pull(&mut remote, "pw", &mut KeepLocalResolver::new()) {
        Err(Error::Sync(SyncError::Manifest(m))) => {
            assert!(m.starts_with("non-utf8 ciphertext: "), "{m}");
        }
        _ => panic!("expected a manifest error"),
    }
    remote.seed(encrypt(b"{}", "pw").unwrap().as_bytes());
    assert!(matches!(
        one.pull(&mut remote, "pw", &mut KeepLocalResolver::new()),
        Err(Error::Sync(SyncError::Manifest(m))) if m == "no version"
    ));
    remote.seed(
        encrypt(b"{\"version\":2,\"vaults\":{}}", "pw")
            .unwrap()
            .as_bytes(),
    );
    assert!(matches!(
        one.pull(&mut remote, "pw", &mut KeepLocalResolver::new()),
        Err(Error::Sync(SyncError::Manifest(m))) if m.contains("file has 2, avpm supports 1")
    ));
}

#[test]
fn an_unreadable_base_counts_as_none() {
    let mut remote = MockBackend::new();
    let mut one = Device::new(&[("dev", "a")]);
    one.push(&mut remote, "pw").unwrap();
    one.write("dev", "b");
    assert_eq!(one.status(&mut remote).newer_local, vec!["dev"]);
    one.base = Some(b"garbage".to_vec());
    assert_eq!(one.status(&mut remote).conflicts, vec!["dev"]);
    one.base = Some(encrypt(b"[]", "pw").unwrap().into_bytes());
    assert_eq!(one.status(&mut remote).conflicts, vec!["dev"]);
}

#[test]
fn failures_outside_end_a_run() {
    let device = Device::new(&[("dev", "a")]);
    let down = || Error::Sync(SyncError::Backend(SyncBackendError::WebDav("down".into())));
    let engine = SyncEngine::new(());
    let run = engine
        .push(&device.store, &device.index, "pw", Some("note".into()))
        .probed(Err(down()));
    assert!(matches!(run.stage, SyncStage::Failed(Error::Sync(_))));
    let run = engine.pull("pw").probed(Ok(true)).pulled(Err(down()));
    assert!(matches!(run.stage, SyncStage::Failed(_)));

    let (mut store, mut index) = (device.store, device.index);
    let run = engine
        .push(&store, &index, "pw", None)
        .probed(Ok(false))
        .base_read(None, &mut store, &mut index, &mut KeepLocalResolver::new())
        .index_persisted(Ok(()));
    let run = run.rendered(Err("no json".into()));
    assert!(matches!(
        run.stage,
        SyncStage::Failed(Error::Sync(SyncError::Manifest(m))) if m == "no json"
    ));
    let run = engine
        .push(&store, &index, "pw", None)
        .probed(Ok(false))
        .base_read(None, &mut store, &mut index, &mut KeepLocalResolver::new())
        .index_persisted(Ok(()))
        .rendered(Ok(b"json".to_vec()));
    match &run.stage {
        SyncStage::Upload(armored) => assert_eq!(decrypt(armored, "pw").unwrap(), b"json"),
        _ => panic!("expected an upload"),
    }
    let run = run.uploaded(Err(down()));
    assert!(matches!(run.stage, SyncStage::Failed(_)));
}

#[test]
fn a_status_after_a_push_finds_no_difference() {
    let mut remote = MockBackend::new();
    let mut one = Device::new(&[("prod", "b"), ("dev", "a")]);
    one.push(&mut remote, "pw").unwrap();
    let index_before = one.index.changed;
    let status = one.status(&mut remote);
    assert_eq!(status.unchanged, vec!["dev", "prod"]);
    assert!(status.local_only.is_empty() && status.remote_only.is_empty());
    assert!(status.newer_local.is_empty() && status.newer_remote.is_empty());
    assert!(status.conflicts.is_empty());
    assert_eq!(one.store.vault_ids(), vec!["dev", "prod"]);
    assert_eq!(one.index.changed, index_before);
    // The base that the push remembered is what a later run opens.
    let base = String::from_utf8(one.base.clone().unwrap()).unwrap();
    let opened = parse(&decrypt(&base, "pw").unwrap()).unwrap();
    assert_eq!(opened.vaults.get("dev").unwrap().password, "a");
    assert_eq!(opened.len(), 2);
}

#[test]
fn outcomes_of_the_cipher_decide_the_next_stage() {
    let engine = SyncEngine::new(());
    let mut device = Device::new(&[("dev", "a")]);
    let run = engine.pull("pw").probed(Ok(true));
    match run.remote_opened(Ok(b"plain".to_vec())).stage {
        SyncStage::ParseRemote(plain) => assert_eq!(plain, b"plain"),
        _ => panic!("expected a remote to parse"),
    }
    let run = engine.pull("pw").probed(Ok(true));
    assert!(matches!(
        run.remote_opened(Err(Error::Decrypt("no".into()))).stage,
        SyncStage::Failed(Error::Decrypt(m)) if m == "no"
    ));
    let status = |device: &Device| {
        engine
            .status(&device.store, &device.index, "pw")
            .probed(Ok(false))
    };
    let run = status(&device).base_opened(
        Ok(b"base".to_vec()),
        &mut device.store,
        &mut device.index,
        &mut KeepLocalResolver::new(),
    );
    assert!(matches!(&run.stage, SyncStage::ParseBase(plain) if plain == b"base"));
    let run = status(&device).base_opened(
        Err(Error::Decrypt("no".into())),
        &mut device.store,
        &mut device.index,
        &mut KeepLocalResolver::new(),
    );
    match run.stage {
        SyncStage::Done(SyncSummary::Status(s)) => assert_eq!(s.local_only, vec!["dev"]),
        _ => panic!("expected a status"),
    }
    let mut rendering = || {
        engine
            .push(&device.store, &device.index, "pw", None)
            .probed(Ok(false))
            .base_read(
                None,
                &mut device.store,
                &mut device.index,
                &mut KeepLocalResolver::new(),
            )
            .index_persisted(Ok(()))
    };
    assert!(matches!(
        rendering()
            .manifest_sealed(b"json".to_vec(), Err(Error::Encrypt("no".into())))
            .stage,
        SyncStage::Failed(Error::Encrypt(m)) if m == "no"
    ));
    let sealed = encrypt(b"json", "pw").unwrap();
    let run = rendering().manifest_sealed(b"json".to_vec(), Ok(sealed.clone()));
    assert_eq!(run.ciphertext_size, sealed.len());
    assert!(matches!(&run.stage, SyncStage::Upload(text) if *text == sealed));
    let run = run.base_sealed(Ok(sealed.clone()));
    assert!(matches!(&run.stage, SyncStage::SaveBase(text) if *text == sealed));
}

/// A store that refuses every write.
struct Full;

impl VaultStore for Full {
    fn get(&self, vault_id: &str) -> Result<VaultSecret, Error> {
        Err(Error::Vault(avpm::vault::VaultError::NotFound(
            vault_id.into(),
        )))
    }
    fn set(&mut self, _vault_id: &str, _secret: &VaultSecret) -> Result<(), Error> {
        Err(Error::Other("full".into()))
    }
    fn delete(&mut self, _vault_id: &str) -> Result<(), Error> {
        Err(Error::Other("full".into()))
    }
}

#[test]
fn a_refused_write_ends_a_run_with_the_error_of_the_store() {
    let mut index = VaultIndex::new("/data/index.json".into());
    let mut theirs = Manifest::new();
    theirs.vaults.insert("dev".into(), entry("a"));
    let run = SyncEngine::new(())
        .pull("pw")
        .probed(Ok(true))
        .remote_opened(Ok(Vec::new()))
        .remote_parsed(Ok(theirs))
        .base_read(None, &mut Full, &mut index, &mut KeepLocalResolver::new());
    assert!(matches!(run.stage, SyncStage::Failed(Error::Other(m)) if m == "full"));
    assert!(index.list().unwrap().is_empty());
    assert!(!index.changed);
}

#[test]
fn targets_need_their_section() {
    let git = GitConfig::default();
    let webdav = WebDavConfig {
        url: "https://x".into(),
        username: "u".into(),
    };
    let with = |backend, git, webdav| {
        let mut cfg = Config::default();
        cfg.sync = Some(SyncConfig {
            backend,
            git,
            webdav,
        });
        cfg
    };
    assert!(matches!(
        target(&Config::default()),
        Err(Error::Sync(SyncError::NotConfigured))
    ));
    assert!(matches!(
        target(&with(BackendKind::Git, Some(git), None)),
        Ok(SyncTarget::Git(g)) if g.branch == "main"
    ));
    assert!(matches!(
        target(&with(BackendKind::WebDav, None, Some(webdav))),
        Ok(SyncTarget::WebDav(w)) if w.username == "u"
    ));
    assert!(matches!(
        target(&with(BackendKind::Git, None, None)),
        Err(Error::Sync(SyncError::Manifest(m))) if m == "git backend configured but [sync.git] missing"
    ));
    assert!(matches!(
        target(&with(BackendKind::WebDav, None, None)),
        Err(Error::Sync(SyncError::Manifest(m))) if m == "webdav backend configured but [sync.webdav] missing"
    ));
}

#[test]
fn fingerprints_show_the_end_only() {
    assert_eq!(fingerprint(""), "");
    assert_eq!(fingerprint("abcd"), "••••");
    assert_eq!(fingerprint("abcde"), "…bcde");
    assert_eq!(fingerprint("xxxxbcde"), fingerprint("yyybcde"));
}

#[test]
fn conflicts_are_shown_with_three_sides() {
    let (l, r) = (entry("longpassword"), entry("abc"));
    assert_eq!(
        conflict_lines_at("dev", None, Some(&l), Some(&r), "", "T1", "T2"),
        vec![
            "⚠ Conflict on 'dev':",
            "  base   : (absent — new on both sides since last sync)",
            "  local  : updated T1, 12 chars (…word)",
            "  remote : updated T2, 3 chars (•••)",
            "[1] keep local  [2] keep remote  [3] keep both (remote as 'dev.remote')",
        ]
    );
    let lines = conflict_lines("dev", Some(&r), None, Some(&l));
    assert_eq!(
        lines[1],
        "  base   : updated 1970-01-01T00:00:01Z, 3 chars (•••)"
    );
    assert_eq!(lines[2], "  local  : (deleted on this device)");
    assert_eq!(lines[4], "[1] keep local  [2] keep remote");
}

#[test]
fn conflict_answers_depend_on_what_is_there() {
    assert_eq!(choice_prompt(true), "Enter 1/2/3: ");
    assert_eq!(choice_prompt(false), "Enter 1/2: ");
    assert_eq!(
        conflict_choice(" 1\n", false),
        Some(ConflictResolution::KeepLocal)
    );
    assert_eq!(
        conflict_choice("2", true),
        Some(ConflictResolution::KeepRemote)
    );
    assert_eq!(
        conflict_choice("3", true),
        Some(ConflictResolution::KeepBoth)
    );
    assert_eq!(conflict_choice("3", false), None);
    assert_eq!(conflict_choice("", true), None);
}

#[test]
fn reports_count() {
    assert_eq!(
        push_report(&PushSummary {
            pushed_count: 3,
            ciphertext_size: 1234
        }),
        "Pushed 3 vault(s) (1234 bytes ciphertext)"
    );
    assert_eq!(
        conflict_report(&vec!["a".into(), "b".into(), "c".into()]),
        vec![
            "Push aborted: 3 conflict(s): a, b, c",
            "Run `avpm sync pull` to resolve interactively, then push again.",
        ]
    );
    let one = || vec!["x".to_string()];
    assert_eq!(
        pull_report(&PullSummary {
            added: one(),
            updated: vec![],
            removed: one(),
            conflicts: vec!["a".into(), "b".into()],
            kept_local: one(),
            skipped: vec![],
        }),
        "Pull complete: +1 ~0 -1 !2 (kept local: 1, unchanged: 0)"
    );
    assert_eq!(
        status_report(&StatusSummary {
            local_only: one(),
            remote_only: vec![],
            newer_local: one(),
            newer_remote: vec![],
            conflicts: vec![],
            unchanged: vec!["a".into(), "b".into()],
        }),
        vec![
            "local-only   : 1",
            "remote-only  : 0",
            "local-changed: 1",
            "remote-changed: 0",
            "conflicts    : 0",
            "unchanged    : 2",
        ]
    );
}
