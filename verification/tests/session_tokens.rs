use identity_service::authentication::Authentication;
use identity_service::config::{
    AppConfig, Config, DatabaseConfig, JwtConfig, ServerConfig, SmtpConfig,
};
use identity_service::credential::{hash_password, HASH_COST};
use identity_service::errors::AuthenticationError;
use identity_service::models::{Login, User};
use identity_service::session::{issue_token, validate_token};
use identity_service::store::Store;

fn test_config() -> Config {
    Config {
        server: ServerConfig { host: "127.0.0.1".into(), port: 8080 },
        database: DatabaseConfig { url: "postgres://localhost/identity".into() },
        jwt: JwtConfig { secret: "SECRET-REDACTED".into(), expiration: 86400 },
        app: AppConfig { verification_url: "https://example.com/verify".into() },
        smtp: SmtpConfig {
            from_name: "Your App Team".into(),
            from_email: "noreply@example.com".into(),
            username: "smtp-user".into(),
            password: "SECRET-REDACTED".into(),
            host: "smtp.example.com".into(),
            port: 587,
            tls: true,
        },
    }
}

fn store_with_user(username: &str, password: &str) -> (Store, User) {
    let mut store = Store::new();
    let user = User {
        id: 7,
        email: "test@example.com".into(),
        password_hash: hash_password(&password.into(), HASH_COST).unwrap(),
        username: username.into(),
        is_active: true,
        created_at: 0,
        updated_at: 0,
    };
    let record = user.duplicate();
    store.insert_user(user).unwrap();
    (store, record)
}

#[test]
fn issue_and_validate_round_trip() {
    let secret: String = "SECRET-REDACTED".into();
    let sub: String = "user123".into();

    let token = issue_token(&sub, &secret, 86400, 1_700_000_000).unwrap();
    let claims = validate_token(&token, &secret, 1_700_000_100).unwrap();
    assert_eq!(claims.sub, "user123");
    assert_eq!(claims.iat, 1_700_000_000);
    assert_eq!(claims.exp, 1_700_000_000 + 86400);
}

#[test]
fn validate_rejects_expired_and_tampered_tokens() {
    let secret: String = "SECRET-REDACTED".into();
    let sub: String = "user123".into();

    let token = issue_token(&sub, &secret, 86400, 1_700_000_000).unwrap();

    let expired = validate_token(&token, &secret, 1_700_000_000 + 86401).unwrap_err();
    assert_eq!(expired, AuthenticationError::InvalidToken);

    let wrong_secret: String = "another-key".into();
    let forged = validate_token(&token, &wrong_secret, 1_700_000_100).unwrap_err();
    assert_eq!(forged, AuthenticationError::InvalidToken);

    let garbled: String = format!("{}x", token);
    let garbled_err = validate_token(&garbled, &secret, 1_700_000_100).unwrap_err();
    assert_eq!(garbled_err, AuthenticationError::InvalidToken);
}

#[test]
fn issue_fails_rather_than_wraps_on_expiry_overflow() {
    let secret: String = "SECRET-REDACTED".into();
    let sub: String = "user123".into();

    let overflowed = issue_token(&sub, &secret, u64::MAX, 2).unwrap_err();
    assert_eq!(overflowed, AuthenticationError::InternalServerError);
}

#[test]
fn login_mints_token_with_username_subject_and_configured_ttl() {
    let (store, _user) = store_with_user("user123", "Valid1@pass");
    let auth = Authentication::new(test_config());

    let token = auth
        .login_at(&store, &"user123".into(), &"Valid1@pass".into(), 1_700_000_000)
        .unwrap();

    let claims = validate_token(&token, &"SECRET-REDACTED".into(), 1_700_000_000).unwrap();
    assert_eq!(claims.sub, "user123");
    assert_eq!(claims.iat, 1_700_000_000);
    assert_eq!(claims.exp, 1_700_000_000 + 86400);

    let decoded = jsonwebtoken::decode::<serde_json::Value>(
        &token,
        &jsonwebtoken::DecodingKey::from_secret("SECRET-REDACTED".as_bytes()),
        &{
            let mut validation = jsonwebtoken::Validation::new(jsonwebtoken::Algorithm::HS256);
            validation.validate_exp = false;
            validation.required_spec_claims.clear();
            validation
        },
    )
    .unwrap();
    assert_eq!(decoded.claims["sub"], "user123");
    assert_eq!(decoded.claims["exp"], serde_json::Value::from(1_700_000_000u64 + 86400));
}

#[test]
fn login_rejects_wrong_password_and_unknown_user_identically() {
    let (store, _user) = store_with_user("user123", "Valid1@pass");
    let auth = Authentication::new(test_config());

    let wrong_password = auth
        .login(&store, &Login { username: "user123".into(), password: "Wrong1@pass".into() })
        .unwrap_err();
    let unknown_user = auth
        .login(&store, &Login { username: "nobody".into(), password: "Valid1@pass".into() })
        .unwrap_err();

    assert_eq!(wrong_password, AuthenticationError::InvalidCredentials);
    assert_eq!(wrong_password, unknown_user);
}
