use identity_service::credential::{hash_password, verify_password, HASH_COST};

#[test]
fn hash_then_verify_succeeds() {
    let plain: String = "Valid1@pass".into();
    let hash = hash_password(&plain, HASH_COST).unwrap();
    assert!(verify_password(&plain, &hash));
}

#[test]
fn verify_against_other_password_fails() {
    let plain: String = "Valid1@pass".into();
    let other: String = "Other2#word".into();
    let hash_of_other = hash_password(&other, HASH_COST).unwrap();
    assert!(!verify_password(&plain, &hash_of_other));
}

#[test]
fn hashing_twice_salts_differently_but_both_verify() {
    let plain: String = "Valid1@pass".into();
    let first = hash_password(&plain, HASH_COST).unwrap();
    let second = hash_password(&plain, HASH_COST).unwrap();
    assert_ne!(first, second);
    assert!(verify_password(&plain, &first));
    assert!(verify_password(&plain, &second));
}

#[test]
fn verify_of_unparsable_hash_is_false_not_an_error() {
    let plain: String = "Valid1@pass".into();
    let junk: String = "not-a-bcrypt-hash".into();
    assert!(!verify_password(&plain, &junk));
}
