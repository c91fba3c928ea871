use avpm::vault::gkr::{
    control_available, control_path, control_unlock, encode_unlock, reply_body_len, step_failed,
    unlock_result, ControlStep, UnlockOutcome, Unavailable, CREDENTIALS, MAX_REPLY, OP_UNLOCK,
    RESULT_DENIED, RESULT_OK,
};

/// What a daemon reads out of a request: the operation and the password.
fn observed(packet: &[u8]) -> (u32, String) {
    let number =
        |at: usize| u32::from_be_bytes([packet[at], packet[at + 1], packet[at + 2], packet[at + 3]]);
    assert_eq!(number(0) as usize, packet.len());
    let pw_len = number(8) as usize;
    let password = String::from_utf8(packet[12..12 + pw_len].to_vec()).unwrap();
    (number(4), password)
}

/// What is made of a reply that carries `result`.
fn answer(result: u32) -> Result<UnlockOutcome, Unavailable> {
    let n = reply_body_len(8u32.to_be_bytes()).unwrap();
    assert_eq!(n, 4);
    unlock_result(&result.to_be_bytes().to_vec())
}

#[test]
fn unlock_ok_sends_the_pam_wire_format() {
    let request = control_unlock(Some("/run/control".into()), "s3cret")
        .ok()
        .unwrap();
    assert_eq!(request.path, "/run/control");
    assert_eq!(CREDENTIALS, 0);
    assert_eq!(observed(&request.packet), (OP_UNLOCK, "s3cret".to_string()));
    assert_eq!(answer(RESULT_OK).ok(), Some(UnlockOutcome::Unlocked));
}

#[test]
fn unlock_denied_is_an_outcome_not_an_error() {
    let request = control_unlock(Some("/run/control".into()), "wrong")
        .ok()
        .unwrap();
    assert_eq!(observed(&request.packet).1, "wrong");
    assert_eq!(answer(RESULT_DENIED).ok(), Some(UnlockOutcome::Denied));
}

#[test]
fn nonsense_reply_length_is_unavailable() {
    // A reply whose total (4) cannot contain a result u32 at offset 4.
    let err = reply_body_len(4u32.to_be_bytes()).err().unwrap();
    assert!(err.0.contains("nonsense reply length"), "got: {}", err.0);
}

#[test]
fn refused_result_code_is_unavailable() {
    let err = answer(2).err().unwrap(); // FAILED
    assert!(err.0.contains("result code 2"), "got: {}", err.0);
    assert_eq!(err.0, "control result code 2 (daemon refused or failed)");
}

#[test]
fn a_failed_connect_names_the_socket() {
    let err = step_failed(ControlStep::Connect, "/run/control", "no such file");
    assert!(err.0.contains("could not connect"), "got: {}", err.0);
    assert_eq!(err.0, "could not connect to /run/control: no such file");
}

#[test]
fn nul_in_password_is_rejected_before_any_io() {
    let err = control_unlock(Some("/nonexistent".into()), "a\0b")
        .err()
        .unwrap();
    assert!(err.0.contains("NUL"), "got: {}", err.0);
}

#[test]
fn control_unlock_without_any_env_is_unavailable() {
    let err = control_unlock(control_path(None, None), "pw").err().unwrap();
    assert!(err.0.contains("neither"), "got: {}", err.0);
}

#[test]
fn control_unlock_resolves_the_socket_from_env() {
    let request = control_unlock(control_path(Some("/tmp/gkr"), None), "env-pw")
        .ok()
        .unwrap();
    assert_eq!(request.path, "/tmp/gkr/control");
    assert_eq!(observed(&request.packet).1, "env-pw");
}

#[test]
fn absurd_reply_length_is_unavailable() {
    // A reply claiming u32::MAX bytes: the guard must reject before any
    // allocation.
    let err = reply_body_len(u32::MAX.to_be_bytes()).err().unwrap();
    assert!(err.0.contains("nonsense reply length"), "got: {}", err.0);
    assert_eq!(err.0, "nonsense reply length: 4294967295");
}

#[test]
fn a_failed_read_is_told_as_one_of_the_reply() {
    let err = step_failed(ControlStep::ReadLength, "/run/control", "timed out");
    assert!(
        err.0.contains("reply"),
        "expected a reply-read failure, got: {}",
        err.0
    );
}

#[test]
fn encode_unlock_matches_egg_buffer_layout() {
    // Golden bytes derived from egg-buffer: big-endian, length-prefixed
    // string, total counts itself. `abc` -> total 15, op 1, len 3.
    assert_eq!(
        encode_unlock(b"abc"),
        [0, 0, 0, 15, 0, 0, 0, 1, 0, 0, 0, 3, b'a', b'b', b'c']
    );
    // Empty password is a valid packet (12 bytes, len 0).
    assert_eq!(encode_unlock(b""), [0, 0, 0, 12, 0, 0, 0, 1, 0, 0, 0, 0]);
}

/// Path resolution mirrors the PAM module: GNOME_KEYRING_CONTROL wins, else
/// XDG_RUNTIME_DIR/keyring.
#[test]
fn control_path_resolution() {
    assert_eq!(control_path(None, None), None);
    assert_eq!(
        control_path(None, Some("/run/user/1000")).as_deref(),
        Some("/run/user/1000/keyring/control")
    );
    assert_eq!(
        control_path(Some("/tmp/custom-keyring"), Some("/run/user/1000")).as_deref(),
        Some("/tmp/custom-keyring/control")
    );
}

#[test]
fn control_available_reflects_socket_existence() {
    assert!(!control_available(Some(false)));
    assert!(control_available(Some(true)));
    // No path could be resolved at all.
    assert!(!control_available(None));
}

#[test]
fn longer_lengths_use_all_bytes() {
    let packet = encode_unlock(&vec![7u8; 70_000]);
    assert_eq!(packet.len(), 70_012);
    assert_eq!(&packet[0..4], &70_012u32.to_be_bytes());
    assert_eq!(&packet[8..12], &70_000u32.to_be_bytes());
    assert_eq!(&packet[12..], vec![7u8; 70_000].as_slice());
}

#[test]
fn reply_lengths_have_two_limits() {
    assert_eq!(reply_body_len(8u32.to_be_bytes()).ok(), Some(4));
    assert!(reply_body_len(7u32.to_be_bytes()).is_err());
    let most = MAX_REPLY as u32;
    assert_eq!(
        reply_body_len(most.to_be_bytes()).ok(),
        Some(MAX_REPLY - 4)
    );
    assert!(reply_body_len((most + 1).to_be_bytes()).is_err());
}
