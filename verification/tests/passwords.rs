use avpm::password::{confirm, generate, is_yes, spelled, DEFAULT_LENGTH};
use avpm::{Error, VaultSecret};

#[test]
fn generate_length_is_exact() {
    for len in [1usize, 8, 20, 64] {
        let s = generate(len, true).unwrap();
        assert_eq!(s.as_str().len(), len);
    }
}

#[test]
fn generate_zero_length_errors() {
    assert!(generate(0, true).is_err());
}

#[test]
fn generate_without_symbols_uses_alphanumeric() {
    let s = generate(200, false).unwrap();
    for b in s.as_str().bytes() {
        let ok = b.is_ascii_alphanumeric();
        assert!(ok, "non-alphanumeric char {b:?} in no-symbols password");
    }
}

#[test]
fn generate_with_symbols_can_produce_symbol() {
    // Probabilistic but with 200 chars + symbols it's essentially certain.
    let s = generate(200, true).unwrap();
    let has_symbol = s.as_str().chars().any(|c| !c.is_alphanumeric());
    assert!(has_symbol, "expected at least one symbol");
}

#[test]
fn generate_is_random_across_calls() {
    let a = generate(32, true).unwrap();
    let b = generate(32, true).unwrap();
    assert_ne!(a.as_str(), b.as_str(), "passwords should differ");
}

#[test]
fn generate_length_holds_for_every_length() {
    for len in 1usize..100 {
        assert_eq!(generate(len, true).unwrap().as_str().len(), len);
    }
    assert_eq!(DEFAULT_LENGTH, 32);
}

#[test]
fn drawn_positions_spell_characters_of_the_alphabet() {
    let text = |draws: Vec<usize>, symbols| spelled(&draws, symbols).into_iter().collect::<String>();
    assert_eq!(text(vec![], true), "");
    assert_eq!(text(vec![0, 25, 26, 51, 52, 61], false), "azAZ09");
    assert_eq!(text(vec![61, 0, 61], true), "9a9");
    // The symbols come behind the digits.
    let first_symbol = text(vec![62], true);
    assert!(!first_symbol.chars().any(char::is_alphanumeric), "{first_symbol}");
}

#[test]
fn zero_length_says_why() {
    match generate(0, false) {
        Err(Error::Other(m)) => assert_eq!(m, "password length must be > 0"),
        _ => panic!("expected an error"),
    }
}

#[test]
fn confirmation_must_match() {
    let ok = confirm(VaultSecret::new("a".into()), &VaultSecret::new("a".into()));
    assert_eq!(ok.unwrap().as_str(), "a");
    match confirm(VaultSecret::new("a".into()), &VaultSecret::new("b".into())) {
        Err(Error::Other(m)) => assert_eq!(m, "passwords do not match"),
        _ => panic!("expected an error"),
    }
}

#[test]
fn yes_is_y_or_yes_in_any_case() {
    for line in ["y\n", "Y", " yes \n", "YeS\r\n"] {
        assert!(is_yes(line), "{line:?}");
    }
    for line in ["", "\n", "n", "yess", "ja", "y y"] {
        assert!(!is_yes(line), "{line:?}");
    }
}
