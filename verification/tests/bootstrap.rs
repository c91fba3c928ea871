use avpm::vault::gkr::{UnlockOutcome, Unavailable};
use avpm::vault::ss::{
    auto_prefers_keyring, bootstrap_route, default_collection_status, display_env_vars,
    ensure_default_collection, gui_available, keyrings_dir_error, BootstrapRoute, BootstrapStage,
    CollectionProbe, DefaultCollectionStatus, GuiStep, CREATE_NOTICE,
};
use avpm::vault::{VaultError, VaultSecret};
use avpm::Error;

/// The decision table must be stable, so cover every cell.
#[test]
fn auto_decision_table() {
    let (ready, locked, absent) = (
        DefaultCollectionStatus::Ready,
        DefaultCollectionStatus::ExistsLocked,
        DefaultCollectionStatus::Absent,
    );
    // Daemon up + collection exists (locked or not) -> always keyring,
    // regardless of bootstrap options (they are irrelevant here).
    assert!(auto_prefers_keyring(Some(ready), false, false));
    assert!(auto_prefers_keyring(Some(ready), true, true));
    assert!(auto_prefers_keyring(Some(locked), false, false));
    assert!(auto_prefers_keyring(Some(locked), true, true));

    // Collection absent -> keyring iff something can create it: a GUI for the
    // prompt, or a gnome-keyring control socket (terminal bootstrap).
    assert!(auto_prefers_keyring(Some(absent), true, false));
    assert!(auto_prefers_keyring(Some(absent), false, true));
    assert!(auto_prefers_keyring(Some(absent), true, true));
    assert!(!auto_prefers_keyring(Some(absent), false, false));

    // Daemon unreachable / probe errored -> always file.
    assert!(!auto_prefers_keyring(None, false, false));
    assert!(!auto_prefers_keyring(None, true, true));
}

#[test]
fn gui_available_reflects_display_env() {
    assert!(!gui_available(false, false), "no display vars -> no GUI");
    assert!(gui_available(true, false), "DISPLAY set -> GUI available");
    assert!(
        gui_available(false, true),
        "WAYLAND_DISPLAY set -> GUI available"
    );
}

/// The bootstrap-route decision table. Every cell: Ready short-circuits; a
/// non-interactive caller never prompts; interactive prefers the control socket
/// and falls back to the GUI prompt.
#[test]
fn bootstrap_route_decision_table() {
    let (ready, locked, absent) = (
        DefaultCollectionStatus::Ready,
        DefaultCollectionStatus::ExistsLocked,
        DefaultCollectionStatus::Absent,
    );
    // Ready short-circuits everything: no prompt, no socket, no GUI - desktop
    // Linux with a PAM-unlocked keyring is untouched.
    assert_eq!(
        bootstrap_route(ready, false, false),
        BootstrapRoute::AlreadyReady
    );
    assert_eq!(
        bootstrap_route(ready, true, true),
        BootstrapRoute::AlreadyReady
    );

    // Non-interactive never prompts, whatever the bootstrap options (ansible
    // pipes / `avpm set -g` from scripts -> exit 6).
    assert_eq!(
        bootstrap_route(absent, false, true),
        BootstrapRoute::RefuseNonInteractive
    );
    assert_eq!(
        bootstrap_route(locked, false, false),
        BootstrapRoute::RefuseNonInteractive
    );

    // Interactive: the control socket (terminal, no GUI) wins...
    assert_eq!(
        bootstrap_route(absent, true, true),
        BootstrapRoute::ControlSocket
    );
    assert_eq!(
        bootstrap_route(locked, true, true),
        BootstrapRoute::ControlSocket
    );
    // ...and the GUI prompt is the fallback when there is none.
    assert_eq!(
        bootstrap_route(absent, true, false),
        BootstrapRoute::GuiPrompt
    );
    assert_eq!(
        bootstrap_route(locked, true, false),
        BootstrapRoute::GuiPrompt
    );
}

/// `display_env_vars` collects exactly the display variables that are set.
#[test]
fn display_env_vars_reflects_the_environment() {
    assert!(display_env_vars(None, None).is_empty());

    let vars = display_env_vars(Some(":0".into()), None);
    assert_eq!(vars, vec![("DISPLAY", ":0".to_string())]);

    let vars = display_env_vars(Some(":0".into()), Some("wayland-0".into()));
    assert_eq!(vars.len(), 2);
    assert_eq!(vars[1], ("WAYLAND_DISPLAY", "wayland-0".to_string()));
}

#[test]
fn probes_tell_absence_from_failure() {
    assert_eq!(
        default_collection_status(CollectionProbe::NoCollection).unwrap(),
        DefaultCollectionStatus::Absent
    );
    assert_eq!(
        default_collection_status(CollectionProbe::Found { locked: true }).unwrap(),
        DefaultCollectionStatus::ExistsLocked
    );
    assert_eq!(
        default_collection_status(CollectionProbe::Found { locked: false }).unwrap(),
        DefaultCollectionStatus::Ready
    );
    for (probe, text) in [
        (
            CollectionProbe::Unreachable("x".into()),
            "secret service unreachable: x",
        ),
        (
            CollectionProbe::Unreadable("x".into()),
            "could not read default collection: x",
        ),
        (
            CollectionProbe::LockUnknown("x".into()),
            "collection probe failed: x",
        ),
    ] {
        match default_collection_status(probe) {
            Err(Error::Vault(VaultError::KeyringUnavailable { message, source })) => {
                assert_eq!(message, text);
                assert_eq!(source, "x");
            }
            other => panic!("unexpected {other:?}"),
        }
    }
}

fn pw(s: &str) -> Result<VaultSecret, Error> {
    Ok(VaultSecret::new(s.into()))
}

#[test]
fn nothing_is_done_for_a_ready_collection() {
    let run = ensure_default_collection(DefaultCollectionStatus::Ready, true, true, true);
    assert!(matches!(run.stage, BootstrapStage::Ready));
    let run = ensure_default_collection(DefaultCollectionStatus::Absent, false, true, true);
    assert!(matches!(
        run.stage,
        BootstrapStage::Failed(Error::Vault(VaultError::KeyringLocked))
    ));
}

#[test]
fn a_keyring_is_created_from_the_terminal() {
    let run = ensure_default_collection(DefaultCollectionStatus::Absent, true, true, false);
    assert_eq!(run.notice.as_deref(), Some(CREATE_NOTICE));
    let run = run.new_password_entered(pw(""));
    assert_eq!(
        run.notice.as_deref(),
        Some("the OS keyring password must not be empty; try again")
    );
    let run = run
        .new_password_entered(pw("a"))
        .new_password_confirmed(pw("b"));
    assert_eq!(
        run.notice.as_deref(),
        Some("passwords do not match; try again")
    );
    assert!(matches!(run.stage, BootstrapStage::NewPassword));
    let run = run
        .new_password_entered(pw("a"))
        .new_password_confirmed(pw("a"))
        .dir_created(Ok(()));
    assert!(matches!(&run.stage, BootstrapStage::ControlCreate(s) if s.as_str() == "a"));
    let run = run.control_answered(Ok(UnlockOutcome::Unlocked));
    assert!(matches!(run.stage, BootstrapStage::Reprobe));
    let run = run.reprobed(Ok(DefaultCollectionStatus::Ready));
    assert!(matches!(run.stage, BootstrapStage::Ready));
}

#[test]
fn a_wrong_password_is_asked_for_three_times() {
    let mut run =
        ensure_default_collection(DefaultCollectionStatus::ExistsLocked, true, true, false);
    for n in 1..=3u8 {
        assert!(matches!(run.stage, BootstrapStage::Password { attempt } if attempt == n));
        run = run
            .password_entered(pw("x"))
            .control_answered(Ok(UnlockOutcome::Denied));
        assert_eq!(
            run.notice,
            Some(format!("wrong OS keyring password ({n}/3)"))
        );
    }
    assert!(matches!(
        &run.stage,
        BootstrapStage::Failed(Error::Other(m)) if m == "OS keyring password rejected 3 times"
    ));
}

#[test]
fn a_dead_socket_leads_to_the_gui() {
    let locked = ensure_default_collection(DefaultCollectionStatus::ExistsLocked, true, true, false)
        .password_entered(pw("x"))
        .control_answered(Err(Unavailable("gone".into())));
    assert!(matches!(locked.stage, BootstrapStage::GuiConnect));
    let locked = locked.connected(Ok(()));
    assert!(matches!(locked.stage, BootstrapStage::GuiUnlock));
    let failed = locked.prompted(Err((GuiStep::Unlock, "dismissed".into())));
    match failed.stage {
        BootstrapStage::Failed(Error::Vault(VaultError::KeyringUnavailable { message, .. })) => {
            assert_eq!(message, "unlock failed: dismissed");
        }
        _ => panic!("expected a failure"),
    }
    // An absent collection cannot be created where nothing can prompt.
    let absent = ensure_default_collection(DefaultCollectionStatus::Absent, true, false, false)
        .connected(Ok(()));
    assert!(matches!(
        absent.stage,
        BootstrapStage::Failed(Error::Vault(VaultError::KeyringUnavailable { .. }))
    ));
    let absent = ensure_default_collection(DefaultCollectionStatus::Absent, true, false, true)
        .connected(Ok(()))
        .dir_created(Ok(()))
        .prompted(Ok(()));
    assert!(matches!(absent.stage, BootstrapStage::Ready));
}

#[test]
fn a_socket_that_does_not_back_the_service_is_noticed() {
    let run = ensure_default_collection(DefaultCollectionStatus::ExistsLocked, true, true, true)
        .password_entered(pw("x"))
        .control_answered(Ok(UnlockOutcome::Unlocked))
        .reprobed(Ok(DefaultCollectionStatus::ExistsLocked));
    assert!(matches!(run.stage, BootstrapStage::GuiConnect));
    let down = run.connected(Err("bus".into()));
    assert!(matches!(down.stage, BootstrapStage::Failed(_)));
    match keyrings_dir_error("/d", "denied".into()) {
        Error::Vault(VaultError::KeyringUnavailable { message, .. }) => assert_eq!(
            message,
            "could not create the keyrings data dir at /d: denied"
        ),
        other => panic!("unexpected {other:?}"),
    }
}
