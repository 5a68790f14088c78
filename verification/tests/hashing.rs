use ged_auth::hashing::{hash, verify};

#[test]
fn hash_then_verify_succeeds() {
    let h = hash("secret");
    assert!(verify(&h, "secret"));
}

#[test]
fn verify_rejects_other_password() {
    let h = hash("secret");
    assert!(!verify(&h, "wrong"));
    assert!(!verify(&h, ""));
}

#[test]
fn hashing_twice_salts_differently_yet_both_verify() {
    let h1 = hash("secret");
    let h2 = hash("secret");
    assert_ne!(h1, h2);
    assert!(verify(&h1, "secret"));
    assert!(verify(&h2, "secret"));
}

#[test]
fn hash_is_not_the_plaintext() {
    let h = hash("secret");
    assert_ne!(h, "secret");
    assert!(h.starts_with("$argon2"));
}

#[test]
fn verify_on_malformed_stored_hash_is_false_not_a_panic() {
    assert!(!verify("", "secret"));
    assert!(!verify("not-an-encoded-hash", "secret"));
    assert!(!verify("$argon2i$v=19$m=4096,t=3,p=1$garbage", "secret"));
}
