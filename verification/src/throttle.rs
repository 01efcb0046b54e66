//! The re-issuance throttle: whether a fresh token of some purpose may be
//! issued, judged from the age of the token currently stored for it.

use vstd::prelude::*;
use crate::claims::ClaimsView;
use crate::errors::AuthError;
use crate::jwt::{claims_of, JWT};

verus! {

/// The cooldown, in seconds, between two issuances of the same purpose.
pub const DURATION_OF_SEND_EMAIL: u64 = 600;

/// What the throttle decides for a stored token (or none) at time `now`.
/// No stored row, and a row that no longer parses or is already past its
/// expiry, impose no cooldown. Otherwise re-issuance is denied until
/// `cooldown` seconds have passed since the stored claim's issue time,
/// with the remaining wait split into whole minutes and leftover seconds.
pub open spec fn throttle_spec(
    existing: Option<Seq<char>>,
    cooldown: u64,
    now: u64,
    secret: Seq<char>,
) -> Result<(), AuthError> {
    match existing {
        None => Ok(()),
        Some(t) => match claims_of(t, secret) {
            None => Ok(()),
            Some(c) => if c.exp < now {
                Ok(())
            } else if c.iat > now {
                Err(AuthError::ClockAnomaly)
            } else if now - c.iat < cooldown {
                let left = (cooldown - (now - c.iat)) as u64;
                Err(AuthError::RateLimited { minutes: left / 60, seconds: left % 60 })
            } else {
                Ok(())
            },
        },
    }
}

/// Decides whether a token of some purpose may be issued now, given the
/// token string currently stored for that purpose, if any.
pub fn check_can_send_email(jwt: &JWT, existing: Option<&String>, cooldown: u64, now: u64) -> (r:
    Result<(), AuthError>)
    ensures
        r == throttle_spec(
            match existing {
                Some(t) => Some(t@),
                None => None,
            },
            cooldown,
            now,
            jwt.spec_secret(),
        ),
{
    let t = match existing {
        Some(t) => t,
        None => {
            return Ok(());
        },
    };
    let claims = match jwt.parse(t.as_str(), None, now) {
        Ok(c) => c,
        Err(_) => {
            return Ok(());
        },
    };
    if claims.iat > now {
        return Err(AuthError::ClockAnomaly);
    }
    let elapsed = now - claims.iat;
    if elapsed < cooldown {
        let left = cooldown - elapsed;
        let minutes = left / 60;
        let seconds = left % 60;
        return Err(AuthError::RateLimited { minutes, seconds });
    }
    Ok(())
}

/// Throttle boundary: a token issued at `t0` and still alive blocks
/// re-issuance one second before the cooldown runs out — with at least
/// one second of wait left — and no longer blocks it one second after.
pub proof fn lemma_throttle_boundary(
    t: Seq<char>,
    c: ClaimsView,
    cooldown: u64,
    t0: u64,
    secret: Seq<char>,
)
    requires
        claims_of(t, secret) == Some(c),
        c.iat == t0,
        cooldown >= 1,
        t0 + cooldown + 1 <= c.exp,
        t0 + cooldown + 1 <= u64::MAX,
    ensures
        ({
            let r = throttle_spec(Some(t), cooldown, (t0 + cooldown - 1) as u64, secret);
            &&& r matches Err(AuthError::RateLimited { minutes, seconds })
            &&& r matches Err(AuthError::RateLimited { minutes, seconds }) ==> minutes * 60
                + seconds == 1 && seconds >= 1
        }),
        throttle_spec(Some(t), cooldown, (t0 + cooldown + 1) as u64, secret) == Ok::<
            (),
            AuthError,
        >(()),
{
}

} // verus!
