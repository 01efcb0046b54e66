//! The token codec: purpose-scoped, expiring claims signed with a
//! process-wide symmetric secret.

use vstd::prelude::*;
use crate::claims::{ClaimType, Claims, ClaimsView};
use crate::errors::AuthError;
use crate::user::User;

verus! {

/// The signed token that encoding a claim with a secret produces.
pub uninterp spec fn token_of(c: ClaimsView, secret: Seq<char>) -> Seq<char>;

/// The claim that decoding a token with a secret recovers: `None` when the
/// string is malformed or its signature was not computed with that secret.
pub uninterp spec fn claims_of(token: Seq<char>, secret: Seq<char>) -> Option<ClaimsView>;

/// Relies on `jsonwebtoken::encode` with `HS256` and the default header:
/// the token is a deterministic function of the claim fields and the
/// secret, and `jsonwebtoken::decode` with the same secret recovers
/// exactly the claim fields that went in. The call cannot fail: the key
/// family matches the header's algorithm, serializing a string-keyed map
/// of strings and integers is total, and so is the HMAC.
#[verifier::external_body]
fn encode_claims(c: &Claims, secret: &str) -> (r: Option<String>)
    ensures
        r is Some,
        r matches Some(t) ==> t@ == token_of(c@, secret@) && claims_of(t@, secret@) == Some(
            c@,
        ),
{
    let mut m = serde_json::Map::new();
    m.insert("sub".to_string(), serde_json::Value::from(c.sub.clone()));
    if let Some(u) = &c.user_type {
        m.insert("user_type".to_string(), serde_json::Value::from(u.clone()));
    }
    m.insert("claim_type".to_string(), serde_json::Value::from(c.claim_type.clone()));
    m.insert("exp".to_string(), serde_json::Value::from(c.exp));
    m.insert("iat".to_string(), serde_json::Value::from(c.iat));
    let key = jsonwebtoken::EncodingKey::from_secret(secret.as_bytes());
    jsonwebtoken::encode(&jsonwebtoken::Header::default(), &serde_json::Value::Object(m), &key).ok()
}

/// Relies on `jsonwebtoken::decode` with `HS256`: whether the signature
/// verifies, and which claim fields come back, depend on the token string
/// and the secret alone. Expiry is deliberately not checked here; the
/// verified caller checks it against its own clock.
#[verifier::external_body]
fn decode_claims(token: &str, secret: &str) -> (r: Option<Claims>)
    ensures
        match r {
            Some(c) => claims_of(token@, secret@) == Some(c@),
            None => claims_of(token@, secret@) is None,
        },
{
    let mut v = jsonwebtoken::Validation::new(jsonwebtoken::Algorithm::HS256);
    v.validate_exp = false;
    v.required_spec_claims = std::collections::HashSet::new();
    let key = jsonwebtoken::DecodingKey::from_secret(secret.as_bytes());
    let d = jsonwebtoken::decode::<serde_json::Value>(token, &key, &v).ok()?.claims;
    let user_type = match d.get("user_type") { Some(u) => Some(u.as_str()?.to_string()), None => None };
    let sub = d.get("sub")?.as_str()?.to_string();
    let claim_type = d.get("claim_type")?.as_str()?.to_string();
    Some(Claims { sub, user_type, claim_type, exp: d.get("exp")?.as_u64()?, iat: d.get("iat")?.as_u64()? })
}

/// The claim a fresh issuance carries: issued at `now`, expiring `days`
/// whole days later.
pub open spec fn issued_claims(
    sub: Seq<char>,
    user_type: Option<Seq<char>>,
    ct: ClaimType,
    days: u64,
    now: u64,
) -> ClaimsView {
    ClaimsView {
        sub: sub,
        user_type: user_type,
        claim_type: ct.spec_str(),
        exp: (now + days * 86400) as u64,
        iat: now,
    }
}

/// What parsing a token at time `now` yields, for a given expected
/// purpose: the claim, or the one error owed for this input. Signature
/// and shape are judged first, then expiry, then the purpose tag.
pub open spec fn parse_spec(
    token: Seq<char>,
    expect: Option<ClaimType>,
    now: u64,
    secret: Seq<char>,
) -> Result<ClaimsView, AuthError> {
    match claims_of(token, secret) {
        None => Err(AuthError::InvalidToken),
        Some(c) => if c.exp < now {
            Err(AuthError::ExpiredToken)
        } else {
            match expect {
                None => Ok(c),
                Some(ct) => if c.claim_type == ct.spec_str() {
                    Ok(c)
                } else {
                    Err(AuthError::PurposeMismatch)
                },
            }
        },
    }
}

/// The token codec: stateless once constructed around the signing secret.
pub struct JWT {
    secret: String,
}

impl JWT {
    /// The signing secret, as contracts speak of it.
    pub closed spec fn spec_secret(&self) -> Seq<char> {
        self.secret@
    }

    pub fn new(secret: String) -> (r: JWT)
        ensures
            r.spec_secret() == secret@,
    {
        JWT { secret }
    }

    /// Expiry timestamp a number of days after `now`.
    fn get_expiration(&self, days: u64, now: u64) -> (r: u64)
        requires
            now + days * 86400 <= u64::MAX,
        ensures
            r == now + days * 86400,
    {
        now + days * 86400
    }

    /// Issues an email-verification token bound to the address itself.
    pub fn verify_email(&self, email: &str, now: u64) -> (r: Result<String, AuthError>)
        requires
            now + 86400 <= u64::MAX,
        ensures
            r is Ok,
            r matches Ok(t) ==> ({
                let c = issued_claims(email@, None, ClaimType::VerifyEmail, 1, now);
                &&& t@ == token_of(c, self.spec_secret())
                &&& claims_of(t@, self.spec_secret()) == Some(c)
            }),
    {
        let claims = Claims {
            sub: email.to_owned(),
            user_type: None,
            claim_type: ClaimType::VerifyEmail.as_str().to_owned(),
            exp: self.get_expiration(1, now),
            iat: now,
        };
        match encode_claims(&claims, self.secret.as_str()) {
            Some(t) => Ok(t),
            None => Err(AuthError::SigningError),
        }
    }

    /// Issues a password-reset token bound to the user id.
    pub fn forgot_password(&self, user: &User, now: u64) -> (r: Result<String, AuthError>)
        requires
            now + 86400 <= u64::MAX,
        ensures
            r is Ok,
            r matches Ok(t) ==> ({
                let c = issued_claims(
                    user.id@,
                    Some(user.u_type.spec_str()),
                    ClaimType::ForgotPassword,
                    1,
                    now,
                );
                &&& t@ == token_of(c, self.spec_secret())
                &&& claims_of(t@, self.spec_secret()) == Some(c)
            }),
    {
        let claims = Claims {
            sub: user.id.clone(),
            user_type: Some(user.u_type.as_str().to_owned()),
            claim_type: ClaimType::ForgotPassword.as_str().to_owned(),
            exp: self.get_expiration(1, now),
            iat: now,
        };
        match encode_claims(&claims, self.secret.as_str()) {
            Some(t) => Ok(t),
            None => Err(AuthError::SigningError),
        }
    }

    /// Issues a login (session) token bound to the user id, valid seven days.
    pub fn access(&self, user: &User, now: u64) -> (r: Result<String, AuthError>)
        requires
            now + 7 * 86400 <= u64::MAX,
        ensures
            r is Ok,
            r matches Ok(t) ==> ({
                let c = issued_claims(
                    user.id@,
                    Some(user.u_type.spec_str()),
                    ClaimType::Login,
                    7,
                    now,
                );
                &&& t@ == token_of(c, self.spec_secret())
                &&& claims_of(t@, self.spec_secret()) == Some(c)
            }),
    {
        let claims = Claims {
            sub: user.id.clone(),
            user_type: Some(user.u_type.as_str().to_owned()),
            claim_type: ClaimType::Login.as_str().to_owned(),
            exp: self.get_expiration(7, now),
            iat: now,
        };
        match encode_claims(&claims, self.secret.as_str()) {
            Some(t) => Ok(t),
            None => Err(AuthError::SigningError),
        }
    }

    /// Parses a token: verifies signature and shape, then expiry against
    /// `now`, then the purpose tag when one is expected.
    pub fn parse(&self, token: &str, claim_type: Option<ClaimType>, now: u64) -> (r: Result<
        Claims,
        AuthError,
    >)
        ensures
            match r {
                Ok(c) => parse_spec(token@, claim_type, now, self.spec_secret())
                    == Ok::<ClaimsView, AuthError>(c@),
                Err(e) => parse_spec(token@, claim_type, now, self.spec_secret())
                    == Err::<ClaimsView, AuthError>(e),
            },
    {
        let c = match decode_claims(token, self.secret.as_str()) {
            Some(c) => c,
            None => {
                return Err(AuthError::InvalidToken);
            },
        };
        if c.exp < now {
            return Err(AuthError::ExpiredToken);
        }
        match claim_type {
            None => Ok(c),
            Some(ct) => {
                if crate::strutil::str_eq(c.claim_type.as_str(), ct.as_str()) {
                    Ok(c)
                } else {
                    Err(AuthError::PurposeMismatch)
                }
            },
        }
    }
}

/// Round trip of the codec: a token issued with claim `c` parses back,
/// at any time up to its expiry and with its own purpose expected, to
/// exactly `c` — in particular to the subject it was issued for.
pub proof fn lemma_parse_round_trip(
    t: Seq<char>,
    c: ClaimsView,
    expect: ClaimType,
    now: u64,
    secret: Seq<char>,
)
    requires
        claims_of(t, secret) == Some(c),
        c.claim_type == expect.spec_str(),
        now <= c.exp,
    ensures
        parse_spec(t, Some(expect), now, secret) == Ok::<ClaimsView, AuthError>(c),
{
}

/// Purpose binding: an unexpired token issued for purpose `issued` is
/// rejected with a purpose mismatch whenever a different purpose is
/// expected at parse time.
pub proof fn lemma_parse_purpose_mismatch(
    t: Seq<char>,
    c: ClaimsView,
    issued: ClaimType,
    expect: ClaimType,
    now: u64,
    secret: Seq<char>,
)
    requires
        claims_of(t, secret) == Some(c),
        c.claim_type == issued.spec_str(),
        issued != expect,
        now <= c.exp,
    ensures
        parse_spec(t, Some(expect), now, secret) == Err::<ClaimsView, AuthError>(
            AuthError::PurposeMismatch,
        ),
{
    if c.claim_type == expect.spec_str() {
        crate::claims::lemma_claim_tag_injective(issued, expect);
    }
}

/// Two decodable tokens that carry different claims are different
/// strings; in particular, tokens issued at different times differ.
pub proof fn lemma_distinct_claims_distinct_tokens(
    t1: Seq<char>,
    t2: Seq<char>,
    c1: ClaimsView,
    c2: ClaimsView,
    secret: Seq<char>,
)
    requires
        claims_of(t1, secret) == Some(c1),
        claims_of(t2, secret) == Some(c2),
        c1 != c2,
    ensures
        t1 != t2,
{
}

} // verus!
