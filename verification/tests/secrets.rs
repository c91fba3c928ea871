use avpm::VaultSecret;

#[test]
fn as_str_roundtrips() {
    let s = VaultSecret::new("hunter2".to_string());
    assert_eq!(s.as_str(), "hunter2");
    assert_eq!(s.len(), 7);
    assert!(!s.is_empty());
}

#[test]
fn debug_does_not_leak() {
    let s = VaultSecret::new("topsecret".to_string());
    let dbg = s.debug_text();
    assert!(!dbg.contains("topsecret"), "Debug leaked secret: {dbg}");
    assert!(dbg.contains("len"));
}

#[test]
fn clone_independent() {
    let a = VaultSecret::new("x".to_string());
    let b = a.clone();
    assert_eq!(a.as_str(), b.as_str());
}

#[test]
fn length_is_in_bytes() {
    let s = VaultSecret::new("pä€".to_string());
    assert_eq!(s.len(), 6);
    assert_eq!(s.debug_text(), "VaultSecret { len: 6 }");
    assert!(VaultSecret::new(String::new()).is_empty());
}

#[test]
fn diagnostics_of_equally_long_secrets_are_alike() {
    let a = VaultSecret::new("aaaa".to_string());
    let b = VaultSecret::new("zzzz".to_string());
    assert_eq!(a.debug_text(), b.debug_text());
}
