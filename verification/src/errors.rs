//! Typed errors surfaced by every operation of the crate.

use vstd::prelude::*;

verus! {

/// One field that failed input validation, with the message that the
/// caller shows verbatim.
#[derive(Debug, Clone, PartialEq, Eq)]
pub struct FieldError {
    pub field: String,
    pub message: String,
}

/// The error taxonomy of the credential subsystem. Every error is terminal
/// to the request that triggered it; no operation retries on its own.
#[derive(Debug, Clone, PartialEq, Eq)]
pub enum AuthError {
    /// Input shape was rejected; carries one entry per failing field.
    Validation(Vec<FieldError>),
    /// Signup was asked for an email that the store already holds.
    DuplicateEmail,
    /// No user matches the given email or id.
    NotFound,
    /// The email is already verified, so a verification step is redundant.
    AlreadyVerified,
    /// The operation needs a verified email, and this one is not.
    EmailNotVerified,
    /// The password check against the stored hash failed.
    InvalidCredentials,
    /// The token is malformed or its signature does not verify.
    InvalidToken,
    /// The token is cryptographically sound but past its expiry.
    ExpiredToken,
    /// The token embeds a purpose other than the one the caller expected.
    PurposeMismatch,
    /// The token is valid in itself but no longer the stored one for its
    /// purpose: it was superseded or consumed.
    TokenExpiredOrRevoked,
    /// Re-issuance was asked for before the cooldown ran out; carries the
    /// remaining wait split into whole minutes and leftover seconds.
    RateLimited { minutes: u64, seconds: u64 },
    /// Signing a fresh token failed at the codec. The issuance interface
    /// owes this arm, but the bundled symmetric codec is proved never to
    /// produce it.
    SigningError,
    /// A stored token claims an issue time in the future: the clock or the
    /// row is wrong, and no sensible cooldown can be computed.
    ClockAnomaly,
    /// A collaborator (store or clock) failed; carries its message.
    Storage(String),
    /// The caller is authenticated but not allowed to do this.
    Forbidden,
}

} // verus!
