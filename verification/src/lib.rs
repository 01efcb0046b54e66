//! Credential and verification-token lifecycle management.
//!
//! The crate issues and parses purpose-scoped signed tokens, enforces the
//! single-active-token-per-purpose rule, throttles re-issuance, and
//! orchestrates the signup, login, email-verification, password-reset and
//! revocation flows over abstract collaborators (credential store, password
//! hasher, mailer).

pub mod errors;
pub mod strutil;
pub mod user;
pub mod project;
pub mod claims;
pub mod jwt;
pub mod throttle;
pub mod validate;
pub mod store;
pub mod hashing;
pub mod notify;
pub mod memstore;
pub mod auth;
pub mod users;

pub use errors::AuthError;
pub use errors::FieldError;
