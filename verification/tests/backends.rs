use avpm::config::{GitConfig, WebDavConfig};
use avpm::sync::backend::git::{
    backend_git, backend_git_output, branch_ref, clone_args, commit_message, commit_message_at,
    commit_outcome, git_environment, git_outcome, head_branch, init_args, local_remote_path,
    local_remote_path_in, no_refs, probed_blob, pulled_blob, says_bare, GitOutput, GitPushStage,
};
use avpm::sync::backend::webdav::{
    exists_status, normalize_dir_url, pull_status, webdav_err, PasswordNeed, BLOB_NAME,
    WEBDAV_USER,
};
use avpm::sync::backend::{GitBackend, MockBackend, WebDavBackend};
use avpm::sync::{SyncBackendError, SyncError};
use avpm::vault::mock::MockStore;
use avpm::vault::{VaultSecret, VaultStore};
use avpm::Error;

fn out(code: i32, stdout: &str, stderr: &str) -> GitOutput {
    GitOutput {
        code: Some(code),
        stdout: stdout.into(),
        stderr: stderr.into(),
    }
}

#[test]
fn mock_push_pull_roundtrip() {
    let mut b = MockBackend::new();
    assert!(!b.blob_exists().unwrap());
    b.push(b"hello", None).unwrap();
    assert!(b.blob_exists().unwrap());
    let got = b.pull().unwrap();
    assert_eq!(got, b"hello");
}

#[test]
fn pull_empty_is_remote_not_found() {
    let b = MockBackend::new();
    let err = b.pull().unwrap_err();
    match err {
        Error::Sync(SyncError::Backend(SyncBackendError::RemoteNotFound)) => {}
        other => panic!("expected RemoteNotFound, got {other:?}"),
    }
}

#[test]
fn mock_push_overwrites_and_snapshot_copies() {
    let mut b = MockBackend::default();
    assert!(b.snapshot().is_none());
    b.seed(b"one");
    assert_eq!(b.snapshot().unwrap(), b"one");
    b.push(b"two", Some("note")).unwrap();
    assert_eq!(b.pull().unwrap(), b"two");
}

#[test]
fn normalize_dir_url_appends_slash() {
    assert_eq!(normalize_dir_url("https://x/dav"), "https://x/dav/");
    assert_eq!(normalize_dir_url("https://x/dav/"), "https://x/dav/");
}

#[test]
fn new_stores_normalized_base_and_blob_name() {
    let cfg = WebDavConfig {
        url: "https://x/dav".into(),
        username: "u".into(),
    };
    let be = WebDavBackend::new(&cfg);
    assert_eq!(be.base_url, "https://x/dav/");
    assert_eq!(BLOB_NAME, "vault.age");
    assert_eq!(be.cred_store.service(), "avpm-webdav");
}

#[test]
fn normalizing_twice_changes_nothing() {
    let once = normalize_dir_url("https://x/dav");
    assert_eq!(normalize_dir_url(&once), once);
    assert_eq!(normalize_dir_url(""), "/");
}

#[test]
fn an_inline_password_bypasses_the_store() {
    let cfg = WebDavConfig {
        url: "https://x/dav".into(),
        username: "u".into(),
    };
    let be = WebDavBackend::new_with_password(&cfg, "pw".into());
    let store = MockStore::new();
    assert_eq!(be.ensure_password(&store).unwrap(), PasswordNeed::AtHand);
    assert_eq!(be.password(&store).unwrap(), "pw");
}

#[test]
fn a_missing_password_is_asked_for_once() {
    let cfg = WebDavConfig {
        url: "https://x/dav".into(),
        username: "u".into(),
    };
    let be = WebDavBackend::new(&cfg);
    let mut store = MockStore::new();
    assert_eq!(be.ensure_password(&store).unwrap(), PasswordNeed::Prompt);
    assert!(be.password(&store).is_err());
    be.keep_password(&mut store, &VaultSecret::new("pw".into()))
        .unwrap();
    assert_eq!(be.ensure_password(&store).unwrap(), PasswordNeed::AtHand);
    assert_eq!(be.password(&store).unwrap(), "pw");
    assert_eq!(store.get(WEBDAV_USER).unwrap().as_str(), "pw");
}

#[test]
fn only_a_404_means_absent() {
    assert!(exists_status(200, "200 OK").unwrap());
    assert!(exists_status(204, "204 No Content").unwrap());
    assert!(!exists_status(404, "404 Not Found").unwrap());
    match exists_status(401, "401 Unauthorized") {
        Err(Error::Sync(SyncError::Backend(SyncBackendError::WebDav(m)))) => {
            assert_eq!(m, "GET returned 401 Unauthorized");
        }
        other => panic!("unexpected {other:?}"),
    }
    assert!(exists_status(500, "500").is_err());
}

#[test]
fn pull_status_tells_absence_from_failure() {
    assert!(pull_status(200, "200 OK").is_ok());
    assert!(matches!(
        pull_status(404, "404 Not Found"),
        Err(Error::Sync(SyncError::Backend(
            SyncBackendError::RemoteNotFound
        )))
    ));
    assert_eq!(
        pull_status(503, "503 Service Unavailable")
            .unwrap_err()
            .message(),
        "backend error: webdav request failed: GET returned 503 Service Unavailable"
    );
    assert_eq!(
        webdav_err("x").message(),
        "backend error: webdav request failed: x"
    );
}

#[test]
fn local_remote_path_is_recognized_correctly() {
    // Locally accessible forms resolve to a filesystem path.
    assert_eq!(
        local_remote_path("/tmp/x/vault.git").as_deref(),
        Some("/tmp/x/vault.git")
    );
    assert_eq!(
        local_remote_path("file:///tmp/x/vault.git").as_deref(),
        Some("/tmp/x/vault.git")
    );
    assert_eq!(
        local_remote_path("~/vault.git"),
        dirs::home_dir().map(|h| h.join("vault.git").to_str().unwrap().to_string())
    );
    // Remote URLs are not locally accessible.
    assert_eq!(local_remote_path("https://github.com/u/v.git"), None);
    assert_eq!(local_remote_path("ssh://git@host/v.git"), None);
    assert_eq!(local_remote_path("git@host:u/v.git"), None);
}

#[test]
fn home_is_needed_for_a_tilde_only() {
    assert_eq!(
        local_remote_path_in("~/v.git", Some("/home/me")).as_deref(),
        Some("/home/me/v.git")
    );
    assert_eq!(local_remote_path_in("~/v.git", None), None);
    assert_eq!(local_remote_path_in("v.git", None).as_deref(), Some("v.git"));
    assert_eq!(
        local_remote_path_in("file://~/v.git", Some("/h/")).as_deref(),
        Some("/h/v.git")
    );
}

fn backend() -> GitBackend {
    GitBackend::new(&GitConfig {
        remote: "r".into(),
        path: "vault.age".into(),
        branch: "trunk".into(),
    })
}

#[test]
fn a_push_lands_on_the_configured_branch_where_the_remote_has_it() {
    let push = backend().push().branch_cloned(Ok(out(0, "", "")));
    assert!(matches!(&push.stage, GitPushStage::Commit { branch } if branch == "trunk"));
}

#[test]
fn an_empty_remote_is_seeded_on_the_configured_branch() {
    let push = backend()
        .push()
        .branch_cloned(Err(Error::Other("no branch".into())));
    assert!(matches!(push.stage, GitPushStage::ListRefs));
    let push = push.refs_listed(Ok(out(0, " \n\n", "")));
    assert!(matches!(push.stage, GitPushStage::Seed));
    let push = push.seeded(Ok(()));
    assert!(matches!(push.stage, GitPushStage::SyncHead));
    let push = push.head_synced();
    assert!(matches!(&push.stage, GitPushStage::Commit { branch } if branch == "trunk"));
    assert_eq!(init_args("trunk"), vec!["init", "-b", "trunk", "."]);
    assert_eq!(branch_ref("trunk"), "refs/heads/trunk");
}

#[test]
fn a_nonempty_remote_is_adopted_on_its_default_branch() {
    let push = backend()
        .push()
        .branch_cloned(Err(Error::Other("no branch".into())))
        .refs_listed(Ok(out(0, "abc\trefs/heads/master\n", "")));
    assert!(matches!(push.stage, GitPushStage::CloneDefault));
    let push = push
        .default_cloned(Ok(out(0, "", "")))
        .head_known(Ok(out(0, "master\n", "")));
    assert!(matches!(&push.stage, GitPushStage::Commit { branch } if branch == "master"));
}

#[test]
fn a_push_fails_where_the_remote_cannot_be_asked() {
    let push = backend()
        .push()
        .branch_cloned(Err(Error::Other("x".into())))
        .refs_listed(Err(Error::Other("unreachable".into())));
    assert!(matches!(&push.stage, GitPushStage::Failed(Error::Other(m)) if m == "unreachable"));
    let push = backend()
        .push()
        .branch_cloned(Err(Error::Other("x".into())))
        .refs_listed(Ok(out(0, "ref", "")))
        .default_cloned(Ok(out(0, "", "")))
        .head_known(Ok(out(0, "HEAD\n", "")));
    assert!(matches!(push.stage, GitPushStage::Failed(_)));
}

#[test]
fn head_branch_must_have_a_name() {
    assert_eq!(head_branch(&out(0, " main\n", "")).unwrap(), "main");
    assert!(head_branch(&out(0, "\n", "")).is_err());
    assert!(head_branch(&out(0, "HEAD", "")).is_err());
}

#[test]
fn git_errors_show_the_command_and_its_output() {
    assert_eq!(
        backend_git("not found", "git clone", "r").message(),
        "backend error: git operation failed: not found\ncommand: git clone (r)"
    );
    assert_eq!(
        backend_git_output("git push", "main", &out(128, "o", "e")).message(),
        "backend error: git operation failed: exit Some(128)\nstdout: o\nstderr: e\ncommand: git push (main)"
    );
    let killed = GitOutput {
        code: None,
        stdout: String::new(),
        stderr: String::new(),
    };
    assert!(backend_git_output("git", "x", &killed)
        .message()
        .contains("exit None\n"));
    assert!(backend_git_output("git", "x", &out(-5, "", ""))
        .message()
        .contains("exit Some(-5)\n"));
    assert!(git_outcome(Ok(out(0, "", "")), "git add", "p").is_ok());
    assert!(git_outcome(Ok(out(1, "", "")), "git add", "p").is_err());
    assert!(git_outcome(Err("no git".into()), "git add", "p").is_err());
}

#[test]
fn an_empty_commit_is_no_failure() {
    assert!(commit_outcome(Ok(out(0, "", "")), "m").is_ok());
    assert!(commit_outcome(Ok(out(1, "", "nothing to commit, tree clean")), "m").is_ok());
    assert!(commit_outcome(Ok(out(1, "", "no changes added")), "m").is_ok());
    // Git says so on its standard output.
    let clean = "On branch main\nnothing to commit, working tree clean\n";
    assert!(commit_outcome(Ok(out(1, clean, "")), "m").is_ok());
    assert!(commit_outcome(Ok(out(1, "no changes added to commit\n", "")), "m").is_ok());
    assert!(commit_outcome(Ok(out(1, "", "fatal: x")), "m").is_err());
    assert!(commit_outcome(Err("no git".into()), "m").is_err());
}

#[test]
fn a_blank_note_is_replaced() {
    assert_eq!(commit_message_at(Some("hello"), "T"), "hello");
    assert_eq!(commit_message_at(Some("  \n"), "T"), "avpm sync push T");
    assert_eq!(commit_message_at(None, "T"), "avpm sync push T");
    let now = commit_message(None);
    assert!(now.starts_with("avpm sync push 2"), "{now}");
    assert_eq!(commit_message(Some("kept")), "kept");
}

#[test]
fn clone_arguments_follow_the_branch() {
    assert_eq!(
        clone_args("r", "/w", Some("main")),
        vec!["clone", "--branch", "main", "--", "r", "/w"]
    );
    assert_eq!(clone_args("r", "/w", None), vec!["clone", "--", "r", "/w"]);
    assert!(git_environment().contains(&("GIT_TERMINAL_PROMPT", "0")));
}

#[test]
fn bare_repositories_say_so() {
    assert!(says_bare(&out(0, "true\n", "")));
    assert!(!says_bare(&out(0, "false\n", "")));
    assert!(!says_bare(&out(1, "true\n", "")));
    assert!(no_refs("\n \n"));
    assert!(!no_refs("a"));
}

#[test]
fn work_dirs_are_fresh() {
    let be = backend();
    let (a, b) = (be.work_dir(), be.work_dir());
    assert_ne!(a, b);
    assert!(a.contains("avpm/sync-tmp/"), "{a}");
}

#[test]
fn a_remote_that_cannot_be_cloned_is_not_absent() {
    assert!(probed_blob(Ok(out(0, "", "")), true).unwrap());
    assert!(!probed_blob(Ok(out(0, "", "")), false).unwrap());
    assert!(probed_blob(Err(Error::Other("down".into())), false).is_err());
    assert_eq!(pulled_blob(Some(vec![1])).unwrap(), vec![1]);
    assert!(matches!(
        pulled_blob(None),
        Err(Error::Sync(SyncError::Backend(
            SyncBackendError::RemoteNotFound
        )))
    ));
}
