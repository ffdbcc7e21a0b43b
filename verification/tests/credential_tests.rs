use user_auth::credential::{generate_salt, hash_password, verify_password};

/// SHA-256 of "abc" is a published test vector; with an empty salt the
/// digest of the concatenation must match it exactly.
#[test]
fn hash_matches_known_sha256_vector() {
    let digest = hash_password("abc", "");
    assert_eq!(
        digest,
        "ba7816bf8f01cfea414140de5dae2223b00361a396177a9cb410ff61f20015ad"
    );
}

#[test]
fn hash_concatenates_password_and_salt() {
    // Splitting "abc" into password and salt must give the same digest.
    assert_eq!(hash_password("a", "bc"), hash_password("ab", "c"));
    assert_eq!(hash_password("a", "bc"), hash_password("abc", ""));
}

#[test]
fn hash_is_deterministic() {
    let first = hash_password("secretpw", "somesalt");
    let second = hash_password("secretpw", "somesalt");
    assert_eq!(first, second);
}

#[test]
fn hash_differs_for_different_salts() {
    let one = hash_password("secretpw", "salt-one");
    let two = hash_password("secretpw", "salt-two");
    assert_ne!(one, two);
}

#[test]
fn hash_is_hex_of_fixed_length() {
    let digest = hash_password("secretpw", "somesalt");
    assert_eq!(digest.len(), 64);
    assert!(digest.chars().all(|c| c.is_ascii_hexdigit() && !c.is_ascii_uppercase()));
}

#[test]
fn verify_accepts_matching_password() {
    let digest = hash_password("hunter22", "somesalt");
    assert!(verify_password("hunter22", "somesalt", &digest));
}

#[test]
fn verify_rejects_wrong_password_and_wrong_salt() {
    let digest = hash_password("hunter22", "somesalt");
    assert!(!verify_password("wrongpw", "somesalt", &digest));
    assert!(!verify_password("hunter22", "othersalt", &digest));
}

#[test]
fn salt_has_requested_length_every_call() {
    for _ in 0..8 {
        assert_eq!(generate_salt(64).len(), 64);
    }
    assert_eq!(generate_salt(1).len(), 1);
}

#[test]
fn salt_of_length_zero_is_empty() {
    assert_eq!(generate_salt(0), "");
}

#[test]
fn salt_draws_from_lowercase_alphanumeric_alphabet() {
    let salt = generate_salt(256);
    assert!(salt
        .chars()
        .all(|c| c.is_ascii_lowercase() || c.is_ascii_digit()));
}

#[test]
fn two_salts_differ() {
    // 36^64 possibilities: a collision would all but prove the generator
    // is not random.
    let one = generate_salt(64);
    let two = generate_salt(64);
    assert_ne!(one, two);
}
