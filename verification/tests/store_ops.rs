use identity_service::errors::{StoreError, UserError};
use identity_service::models::{ActivationToken, User};
use identity_service::store::Store;

fn user(id: u128, email: &str, username: &str) -> User {
    User {
        id,
        email: email.into(),
        password_hash: "hash".into(),
        username: username.into(),
        is_active: false,
        created_at: 0,
        updated_at: 0,
    }
}

#[test]
fn insert_rejects_duplicate_id_as_internal_error() {
    let mut store = Store::new();
    store.insert_user(user(1, "a@example.com", "alice")).unwrap();
    let err = store.insert_user(user(1, "b@example.com", "bob")).unwrap_err();
    assert_eq!(err, UserError::InternalServerError);
    assert_eq!(store.users.len(), 1);
}

#[test]
fn save_token_rejects_duplicate_token_string() {
    let mut store = Store::new();
    store.insert_user(user(1, "a@example.com", "alice")).unwrap();
    store
        .save_token(ActivationToken { user_id: 1, token: "tok".into(), expires_at: 100 })
        .unwrap();
    let err = store
        .save_token(ActivationToken { user_id: 1, token: "tok".into(), expires_at: 200 })
        .unwrap_err();
    assert_eq!(err, StoreError::UniqueViolation);
    assert_eq!(store.tokens.len(), 1);
}

#[test]
fn save_token_rejects_unknown_user() {
    let mut store = Store::new();
    let err = store
        .save_token(ActivationToken { user_id: 9, token: "tok".into(), expires_at: 100 })
        .unwrap_err();
    assert_eq!(err, StoreError::ForeignKeyViolation);
    assert_eq!(store.tokens.len(), 0);
}

#[test]
fn find_valid_requires_exact_match_and_future_expiry() {
    let mut store = Store::new();
    store.insert_user(user(1, "a@example.com", "alice")).unwrap();
    store
        .save_token(ActivationToken { user_id: 1, token: "tok".into(), expires_at: 100 })
        .unwrap();

    assert!(store.find_valid(&"tok".into(), 99).is_some());
    assert!(store.find_valid(&"tok".into(), 100).is_none());
    assert!(store.find_valid(&"TOK".into(), 99).is_none());
    assert!(store.find_valid(&"to".into(), 99).is_none());
}

#[test]
fn delete_for_user_removes_only_that_users_tokens() {
    let mut store = Store::new();
    store.insert_user(user(1, "a@example.com", "alice")).unwrap();
    store.insert_user(user(2, "b@example.com", "bob")).unwrap();
    store
        .save_token(ActivationToken { user_id: 1, token: "tok-a".into(), expires_at: 100 })
        .unwrap();
    store
        .save_token(ActivationToken { user_id: 2, token: "tok-b".into(), expires_at: 100 })
        .unwrap();

    store.delete_for_user(1);
    assert_eq!(store.tokens.len(), 1);
    assert_eq!(store.tokens[0].token, "tok-b");
    assert_eq!(store.users.len(), 2);
}

#[test]
fn activate_flips_only_the_matching_user() {
    let mut store = Store::new();
    store.insert_user(user(1, "a@example.com", "alice")).unwrap();
    store.insert_user(user(2, "b@example.com", "bob")).unwrap();

    store.activate(1).unwrap();
    assert!(store.users[0].is_active);
    assert!(!store.users[1].is_active);

    store.activate(1).unwrap();
    assert!(store.users[0].is_active);

    store.activate(99).unwrap();
    assert!(!store.users[1].is_active);
}
