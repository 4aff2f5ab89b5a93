use vstd::prelude::*;

verus! {

/// Address and port the HTTP front end binds to.
#[derive(Clone)]
pub struct ServerConfig {
    pub host: String,
    pub port: u16,
}

/// Connection string of the relational store.
#[derive(Clone)]
pub struct DatabaseConfig {
    pub url: String,
}

/// Settings of the session-token codec: the process-wide signing secret
/// and the lifetime, in seconds, of every issued session token.
#[derive(Clone)]
pub struct JwtConfig {
    pub secret: String,
    pub expiration: u64,
}

/// Settings of the application boundary: the base URL that activation
/// links point at.
#[derive(Clone)]
pub struct AppConfig {
    pub verification_url: String,
}

/// Settings of the outbound SMTP transport.
#[derive(Clone)]
pub struct SmtpConfig {
    pub from_name: String,
    pub from_email: String,
    pub username: String,
    pub password: String,
    pub host: String,
    pub port: u16,
    pub tls: bool,
}

/// Settings reserved for the authentication flows.
#[derive(Clone)]
pub struct AuthConfig {}

/// Immutable configuration, constructed once at startup and handed by
/// value into each component constructor.
#[derive(Clone)]
pub struct Config {
    pub server: ServerConfig,
    pub database: DatabaseConfig,
    pub jwt: JwtConfig,
    pub app: AppConfig,
    pub smtp: SmtpConfig,
}

} // verus!
