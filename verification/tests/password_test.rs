use webpad::password::{
    digest_matches, hash_password, hash_sha256, is_old_format, scheme_of, verify_password,
    verify_sha256, PasswordError, Scheme, ARGON2_PREFIX,
};

#[test]
fn hash_empty_password_returns_empty() {
    assert_eq!(hash_password(""), "");
}

#[test]
fn hash_non_empty_password_returns_argon2_format() {
    let hash = hash_password("test_password");
    assert!(hash.starts_with(ARGON2_PREFIX));
    assert!(!hash.is_empty());
}

#[test]
fn verify_argon2_hash_matches() {
    let password = "test_password_123";
    let hash = hash_password(password);
    assert!(verify_password(password, &hash));
}

#[test]
fn verify_argon2_hash_wrong_password() {
    let hash = hash_password("correct_password");
    assert!(!verify_password("wrong_password", &hash));
}

#[test]
fn verify_sha256_hash_backwards_compatible() {
    let password = "test_password";
    let sha256_hash = hash_sha256(password);
    assert!(verify_password(password, &sha256_hash));
    assert!(!verify_password("wrong", &sha256_hash));
}

#[test]
fn is_old_format_detects_sha256() {
    let sha256_hash = hash_sha256("test");
    assert!(is_old_format(&sha256_hash));
}

#[test]
fn is_old_format_false_for_argon2() {
    let argon2_hash = hash_password("test");
    assert!(!is_old_format(&argon2_hash));
}

#[test]
fn is_old_format_false_for_empty() {
    assert!(!is_old_format(""));
}

#[test]
fn empty_hash_is_fail_closed() {
    assert!(!verify_password("anything", ""));
    assert!(!verify_password("", ""));
}

#[test]
fn hash_is_deterministic_for_same_input() {
    let hash1 = hash_sha256("hello");
    let hash2 = hash_sha256("hello");
    assert_eq!(hash1, hash2);
}

#[test]
fn hash_is_not_plaintext() {
    let hash = hash_password("hello");
    assert_ne!(hash, "hello");
}

#[test]
fn different_inputs_different_hashes() {
    let hash1 = hash_sha256("hello");
    let hash2 = hash_sha256("world");
    assert_ne!(hash1, hash2);
}

#[test]
fn sha256_of_abc_is_the_known_digest() {
    assert_eq!(
        hash_sha256("abc"),
        "ba7816bf8f01cfea414140de5dae2223b00361a396177a9cb410ff61f20015ad"
    );
    assert_eq!(
        hash_sha256(""),
        "e3b0c44298fc1c149afbf4c8996fb92427ae41e4649b934ca495991b7852b855"
    );
}

#[test]
fn upper_case_digest_is_not_the_stored_one() {
    let stored = hash_sha256("abc").to_uppercase();
    assert!(!verify_sha256("abc", &stored));
    assert!(is_old_format(&stored));
}

#[test]
fn schemes_are_told_apart() {
    assert_eq!(scheme_of(""), Scheme::Unset);
    assert_eq!(scheme_of("$argon2id$"), Scheme::Argon2id);
    assert_eq!(scheme_of("$argon2i$v=19$"), Scheme::Sha256Hex);
    assert_eq!(scheme_of("plain"), Scheme::Sha256Hex);
}

#[test]
fn damaged_argon2_hash_accepts_nothing() {
    assert!(!verify_password("x", "$argon2id$"));
    assert!(!verify_password("x", "$argon2id$v=19$m=19456,t=2,p=1$bad"));
}

#[test]
fn two_hashes_of_one_password_differ_and_both_accept_it() {
    let a = hash_password("same");
    let b = hash_password("same");
    assert_ne!(a, b);
    assert!(verify_password("same", &a));
    assert!(verify_password("same", &b));
}

#[test]
fn known_argon2_hash_is_accepted() {
    let hash = "$argon2id$v=19$m=256,t=2,p=1$c29tZXNhbHQ$nf65EOgLrQMR/uIPnA4rEsF5h7TKyQwu9U1bMCHGi/4";
    assert!(verify_password("password", hash));
    assert!(!verify_password("Password", hash));
    assert!(!verify_password("", hash));
    assert!(!is_old_format(hash));
}

#[test]
fn passwords_are_any_text() {
    let hash = hash_password("pässwörd 🔑");
    assert!(verify_password("pässwörd 🔑", &hash));
    assert!(!verify_password("passwörd 🔑", &hash));
}

#[test]
fn old_format_is_sixty_four_hex_digits() {
    assert!(is_old_format(&"0123456789abcdef".repeat(4)));
    assert!(!is_old_format(&"z".repeat(64)));
    assert!(!is_old_format(&"é".repeat(32)));
    assert!(!is_old_format(&"é".repeat(64)));
    assert!(!is_old_format(&"a".repeat(63)));
    assert!(!is_old_format(&"a".repeat(65)));
    assert!(!is_old_format(&("a".repeat(63) + "g")));
}

#[test]
fn text_that_is_no_digest_accepts_nothing() {
    assert!(!verify_password("plain", "plain"));
    let z = "z".repeat(64);
    assert!(!verify_password(&z, &z));
}

#[test]
fn argon2_hash_with_too_many_lanes_accepts_nothing() {
    let with_lanes = |p: &str| {
        format!(
            "$argon2id$v=19$m=256,t=2,p={}$c29tZXNhbHQ$nf65EOgLrQMR/uIPnA4rEsF5h7TKyQwu9U1bMCHGi/4",
            p
        )
    };
    assert!(verify_password("password", &with_lanes("1")));
    for p in ["0", "33", "99999999", "100000000", "536870912", "4294967295", "99999999999"] {
        assert!(!verify_password("password", &with_lanes(p)));
    }
}

#[test]
fn digests_are_compared_whole() {
    assert!(digest_matches(&"abc".to_string(), "abc"));
    assert!(!digest_matches(&"abc".to_string(), "abcd"));
    assert!(!digest_matches(&"abc".to_string(), ""));
}

#[test]
fn password_error_messages() {
    assert_eq!(PasswordError::InvalidFormat.to_string(), "invalid password hash format");
    assert_eq!(PasswordError::HashFailed.to_string(), "failed to hash password");
    assert_eq!(PasswordError::VerifyFailed.to_string(), "password verification failed");
}
