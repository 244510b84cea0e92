use authcore::hasher::{hash_password, verify_password};

const TEST_COST: u32 = 4;

#[test]
fn verify_accepts_the_hashed_plaintext() {
    let digest = hash_password("secret1", TEST_COST).unwrap();
    assert!(verify_password("secret1", &digest));
}

#[test]
fn verify_rejects_another_plaintext() {
    let digest = hash_password("secret1", TEST_COST).unwrap();
    assert!(!verify_password("secret2", &digest));
    assert!(!verify_password("", &digest));
}

#[test]
fn digests_differ_from_plaintext_and_between_calls() {
    let d1 = hash_password("pw", TEST_COST).unwrap();
    let d2 = hash_password("pw", TEST_COST).unwrap();
    assert_ne!(d1, "pw");
    // fresh salt each call
    assert_ne!(d1, d2);
    assert!(verify_password("pw", &d1));
    assert!(verify_password("pw", &d2));
}

#[test]
fn malformed_digest_is_a_mismatch_not_an_error() {
    assert!(!verify_password("pw", "not a digest"));
    assert!(!verify_password("pw", ""));
}

#[test]
fn unacceptable_cost_is_an_internal_error() {
    assert!(hash_password("pw", 99).is_err());
    assert!(hash_password("pw", 0).is_err());
}
