//! Account-identity lifecycle library: registration with uniqueness
//! enforcement, activation-token issuance / consumption / expiry, and
//! signed session-token minting and validation.

pub mod ambient;
pub mod app_state;
pub mod authentication;
pub mod config;
pub mod credential;
pub mod email;
pub mod errors;
pub mod handlers;
pub mod laws;
pub mod models;
pub mod session;
pub mod store;
pub mod users;
pub mod validation;
