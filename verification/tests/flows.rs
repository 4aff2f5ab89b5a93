use std::cell::RefCell;
use identity_service::authentication::{
    issue_activation_token, verify_user_at, Authentication, ACTIVATION_TOKEN_TTL_SECONDS,
};
use identity_service::config::{
    AppConfig, Config, DatabaseConfig, JwtConfig, ServerConfig, SmtpConfig,
};
use identity_service::email::EmailServiceBase;
use identity_service::errors::{ApiError, AuthenticationError, EmailError};
use identity_service::handlers::{register_user, resend_token, verify_user};
use identity_service::models::{RegisterUser, ResendToken, Token};
use identity_service::store::Store;
use identity_service::users::Users;

fn test_config() -> Config {
    Config {
        server: ServerConfig { host: "127.0.0.1".into(), port: 8080 },
        database: DatabaseConfig { url: "postgres://localhost/identity".into() },
        jwt: JwtConfig { secret: "SECRET-REDACTED".into(), expiration: 86400 },
        app: AppConfig { verification_url: "https://example.com/verify".into() },
        smtp: SmtpConfig {
            from_name: "Your App Team".into(),
            from_email: "noreply@example.com".into(),
            username: "smtp-user".into(),
            password: "SECRET-REDACTED".into(),
            host: "smtp.example.com".into(),
            port: 587,
            tls: true,
        },
    }
}

struct RecordingMailer {
    sent: RefCell<Vec<(String, String, String)>>,
}

impl RecordingMailer {
    fn new() -> Self {
        RecordingMailer { sent: RefCell::new(Vec::new()) }
    }
}

impl EmailServiceBase for RecordingMailer {
    fn send_email(
        &self,
        to: String,
        _cc: Vec<String>,
        _bcc: Vec<String>,
        subject: String,
        content: String,
    ) -> Result<(), EmailError> {
        self.sent.borrow_mut().push((to, subject, content));
        Ok(())
    }
}

fn fresh_registration() -> RegisterUser {
    RegisterUser {
        email: "test@example.com".into(),
        username: "user123".into(),
        password: "Valid1@pass".into(),
    }
}

fn now_epoch() -> u64 {
    u64::try_from(chrono::Utc::now().timestamp()).unwrap_or(0)
}

#[test]
fn register_creates_one_inactive_user_and_one_token() {
    let mut store = Store::new();
    let users = Users::new(test_config());
    let auth = Authentication::new(test_config());
    let mailer = RecordingMailer::new();

    let before = now_epoch();
    let result = register_user(&users, &auth, &mailer, &mut store, fresh_registration());
    let after = now_epoch();

    let response = result.unwrap();
    assert_eq!(response.message, "User created");
    assert!(response.data.is_none());
    assert_eq!(store.users.len(), 1);
    let row = &store.users[0];
    assert_eq!(row.email, "test@example.com");
    assert_eq!(row.username, "user123");
    assert!(!row.is_active);
    assert_ne!(row.password_hash, "Valid1@pass");

    assert_eq!(store.tokens.len(), 1);
    let token_row = &store.tokens[0];
    assert_eq!(token_row.user_id, row.id);
    assert!(token_row.expires_at >= before + ACTIVATION_TOKEN_TTL_SECONDS);
    assert!(token_row.expires_at <= after + ACTIVATION_TOKEN_TTL_SECONDS);

    let sent = mailer.sent.borrow();
    assert_eq!(sent.len(), 1);
    let (to, subject, content) = &sent[0];
    assert_eq!(to, "test@example.com");
    assert_eq!(subject, "Account Activation");
    assert!(content.contains(&format!(
        "https://example.com/verify?token={}",
        token_row.token
    )));
}

#[test]
fn register_duplicate_email_and_username_fail_identically() {
    let mut store = Store::new();
    let users = Users::new(test_config());
    let auth = Authentication::new(test_config());
    let mailer = RecordingMailer::new();

    let first = register_user(&users, &auth, &mailer, &mut store, fresh_registration());
    assert!(first.is_ok());

    let same_email = RegisterUser {
        email: "test@example.com".into(),
        username: "otheruser".into(),
        password: "Valid1@pass".into(),
    };
    let email_conflict = register_user(&users, &auth, &mailer, &mut store, same_email).unwrap_err();

    let same_username = RegisterUser {
        email: "other@example.com".into(),
        username: "user123".into(),
        password: "Valid1@pass".into(),
    };
    let username_conflict =
        register_user(&users, &auth, &mailer, &mut store, same_username).unwrap_err();

    assert_eq!(
        email_conflict,
        ApiError::Conflict("Email or username is already registered".into())
    );
    assert_eq!(email_conflict, username_conflict);
    assert_eq!(store.users.len(), 1);
}

#[test]
fn register_invalid_input_is_rejected_before_persistence() {
    let mut store = Store::new();
    let users = Users::new(test_config());
    let auth = Authentication::new(test_config());
    let mailer = RecordingMailer::new();

    let payload = RegisterUser {
        email: "not-an-email".into(),
        username: "user123".into(),
        password: "Valid1@pass".into(),
    };
    let err = register_user(&users, &auth, &mailer, &mut store, payload).unwrap_err();
    match err {
        ApiError::ValidationError { message, field_errors } => {
            assert_eq!(message, "Invalid input");
            assert_eq!(field_errors.len(), 1);
            assert_eq!(field_errors[0].0, "email");
            assert_eq!(field_errors[0].1, "Invalid email format");
        },
        other => panic!("expected a validation error, got {:?}", other),
    }
    assert_eq!(store.users.len(), 0);
    assert_eq!(store.tokens.len(), 0);
    assert_eq!(mailer.sent.borrow().len(), 0);
}

#[test]
fn verify_activates_user_and_consumes_token() {
    let mut store = Store::new();
    let users = Users::new(test_config());
    let created = users.create_user(&mut store, fresh_registration()).unwrap();

    let issued = issue_activation_token(&mut store, created.id, "tok-1".into(), 1000).unwrap();
    assert_eq!(issued.expires_at, 1000 + ACTIVATION_TOKEN_TTL_SECONDS);

    let probe: String = "tok-1".into();
    assert!(verify_user_at(&mut store, &probe, 2000).is_ok());
    assert!(store.users[0].is_active);
    assert_eq!(store.tokens.len(), 0);

    let second = verify_user_at(&mut store, &probe, 2000);
    assert_eq!(second.unwrap_err(), AuthenticationError::InvalidToken);
}

#[test]
fn verify_unknown_and_expired_tokens_fail_identically() {
    let mut store = Store::new();
    let users = Users::new(test_config());
    let created = users.create_user(&mut store, fresh_registration()).unwrap();
    issue_activation_token(&mut store, created.id, "tok-1".into(), 1000).unwrap();

    let unknown: String = "does-not-exist".into();
    let unknown_err = verify_user_at(&mut store, &unknown, 2000).unwrap_err();

    let expired_probe: String = "tok-1".into();
    let expired_err =
        verify_user_at(&mut store, &expired_probe, 1000 + ACTIVATION_TOKEN_TTL_SECONDS)
            .unwrap_err();

    assert_eq!(unknown_err, AuthenticationError::InvalidToken);
    assert_eq!(unknown_err, expired_err);
    assert!(!store.users[0].is_active);
    assert_eq!(store.tokens.len(), 1);
}

#[test]
fn verify_handler_success_carries_the_verified_message() {
    let mut store = Store::new();
    let users = Users::new(test_config());
    let auth = Authentication::new(test_config());
    let mailer = RecordingMailer::new();
    register_user(&users, &auth, &mailer, &mut store, fresh_registration()).unwrap();
    let token = store.tokens[0].token.clone();

    let response = verify_user(&auth, &mut store, Token { token }).unwrap();
    assert_eq!(response.message, "User verified");
    assert!(response.data.is_none());
    assert!(store.users[0].is_active);
}

#[test]
fn verify_handler_reports_invalid_token() {
    let mut store = Store::new();
    let auth = Authentication::new(test_config());

    let err = verify_user(&auth, &mut store, Token { token: "does-not-exist".into() })
        .unwrap_err();
    assert_eq!(err, ApiError::BadRequest("Invalid token".into()));
}

#[test]
fn resend_invalidates_old_token_and_new_token_verifies() {
    let mut store = Store::new();
    let users = Users::new(test_config());
    let auth = Authentication::new(test_config());
    let mailer = RecordingMailer::new();
    let created = users.create_user(&mut store, fresh_registration()).unwrap();

    assert!(auth.send_activation_token(&mut store, &mailer, created.id).is_ok());
    let old_token = store.tokens[0].token.clone();

    let resent = resend_token(&auth, &mailer, &mut store, ResendToken { user_id: created.id });
    assert_eq!(resent.unwrap().message, "Token resent");
    assert_eq!(store.tokens.len(), 1);
    let new_token = store.tokens[0].token.clone();
    assert_ne!(old_token, new_token);

    let now = now_epoch();
    let old_err = verify_user_at(&mut store, &old_token, now).unwrap_err();
    assert_eq!(old_err, AuthenticationError::InvalidToken);

    assert!(verify_user_at(&mut store, &new_token, now).is_ok());
    assert!(store.users[0].is_active);
}

#[test]
fn resend_for_unknown_user_fails_and_persists_nothing() {
    let mut store = Store::new();
    let auth = Authentication::new(test_config());
    let mailer = RecordingMailer::new();

    let err = resend_token(&auth, &mailer, &mut store, ResendToken { user_id: 42 }).unwrap_err();
    assert_eq!(err, ApiError::InternalServerError("Internal server error".into()));
    assert_eq!(store.tokens.len(), 0);
    assert_eq!(mailer.sent.borrow().len(), 0);
}

#[test]
fn login_handler_maps_credential_failures_to_unauthorized() {
    let mut store = Store::new();
    let users = Users::new(test_config());
    let auth = Authentication::new(test_config());
    let mailer = RecordingMailer::new();
    register_user(&users, &auth, &mailer, &mut store, fresh_registration()).unwrap();

    let ok = identity_service::handlers::login(
        &auth,
        &store,
        identity_service::models::Login {
            username: "user123".into(),
            password: "Valid1@pass".into(),
        },
    );
    let response = ok.unwrap();
    assert_eq!(response.message, "Login successful");
    assert!(response.data.is_some());

    let err = identity_service::handlers::login(
        &auth,
        &store,
        identity_service::models::Login {
            username: "user123".into(),
            password: "Wrong1@pass".into(),
        },
    )
    .unwrap_err();
    assert_eq!(err, ApiError::Unauthorized("Invalid Credentials".into()));
}
