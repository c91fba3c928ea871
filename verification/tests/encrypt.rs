use avpm::sync::encrypt::{decrypt, decrypt_error, encrypt, unseal, DecryptFailure};
use avpm::Error;

#[test]
fn encrypt_round_trip() {
    let msg = b"hello avpm sync";
    let enc = encrypt(msg, "passphrase").unwrap();
    assert!(enc.contains("AGE ENCRYPTED FILE"));
    let dec = decrypt(&enc, "passphrase").unwrap();
    assert_eq!(dec, msg);
}

#[test]
fn wrong_passphrase_fails() {
    let enc = encrypt(b"data", "right").unwrap();
    let res = decrypt(&enc, "wrong");
    assert!(res.is_err());
}

#[test]
fn random_salt_yields_different_ciphertexts() {
    let a = encrypt(b"same data", "p").unwrap();
    let b = encrypt(b"same data", "p").unwrap();
    assert_ne!(a, b, "random salt/nonce should differ ciphertexts");
}

#[test]
fn empty_plaintext_round_trips() {
    let enc = encrypt(b"", "p").unwrap();
    let dec = decrypt(&enc, "p").unwrap();
    assert!(dec.is_empty());
}

#[test]
fn sealed_text_starts_with_the_armor_header() {
    let enc = encrypt("grüße".as_bytes(), "pass").unwrap();
    assert!(enc.starts_with("-----BEGIN AGE ENCRYPTED FILE-----"));
    assert_eq!(decrypt(&enc, "pass").unwrap(), "grüße".as_bytes());
}

#[test]
fn a_refusal_is_told_from_too_much_work() {
    let enc = encrypt(b"data", "right").unwrap();
    assert_eq!(unseal(&enc, "right").unwrap(), b"data");
    assert!(matches!(unseal(&enc, "wrong"), Err(DecryptFailure::Refused(_))));
    // The work that is asked for is in the header.
    let heavy = "age-encryption.org/v1\n\
                 -> scrypt AAAAAAAAAAAAAAAAAAAAAA 63\n\
                 AAAAAAAAAAAAAAAAAAAAAAAAAAAAAAAAAAAAAAAAAAA\n\
                 --- AAAAAAAAAAAAAAAAAAAAAAAAAAAAAAAAAAAAAAAAAAA\n\
                 AAAAAAAAAAAAAAAAAAAA";
    assert!(matches!(
        unseal(heavy, "p"),
        Err(DecryptFailure::ExcessiveWork { required: 63, .. })
    ));
    assert!(matches!(
        decrypt_error(DecryptFailure::ExcessiveWork { required: 40, target: 18 }),
        Error::Decrypt(m)
            if m == "Excessive work parameter for passphrase: 40, where this machine aims at 18"
    ));
    assert!(matches!(
        decrypt_error(DecryptFailure::Refused("r".into())),
        Error::Decrypt(m) if m == "r"
    ));
}

#[test]
fn garbage_is_a_decrypt_error() {
    assert!(matches!(decrypt("not age", "p"), Err(Error::Decrypt(_))));
}
