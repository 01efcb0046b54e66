//! The claim payload carried inside a signed token.

use vstd::prelude::*;

verus! {

/// Purpose tag embedded in a signed claim. It restricts which operation
/// may consume the token, independently of the storage purpose column.
#[derive(Debug, Clone, Copy, PartialEq, Eq, Structural)]
pub enum ClaimType {
    Refresh,
    Login,
    VerifyEmail,
    ForgotPassword,
}

impl ClaimType {
    /// The tag string embedded in the signed payload.
    pub open spec fn spec_str(self) -> Seq<char> {
        match self {
            ClaimType::Refresh => "Refresh"@,
            ClaimType::Login => "Login"@,
            ClaimType::VerifyEmail => "VerifyEmail"@,
            ClaimType::ForgotPassword => "ForgotPassword"@,
        }
    }

    /// The tag string embedded in the signed payload.
    pub fn as_str(&self) -> (r: &'static str)
        ensures
            r@ == self.spec_str(),
    {
        match self {
            ClaimType::Refresh => "Refresh",
            ClaimType::Login => "Login",
            ClaimType::VerifyEmail => "VerifyEmail",
            ClaimType::ForgotPassword => "ForgotPassword",
        }
    }
}

/// No two purpose tags share a tag string.
pub proof fn lemma_claim_tag_injective(a: ClaimType, b: ClaimType)
    requires
        a.spec_str() == b.spec_str(),
    ensures
        a == b,
{
    reveal_strlit("Refresh");
    reveal_strlit("Login");
    reveal_strlit("VerifyEmail");
    reveal_strlit("ForgotPassword");
    assert("Refresh"@.len() == 7);
    assert("Login"@.len() == 5);
    assert("VerifyEmail"@.len() == 11);
    assert("ForgotPassword"@.len() == 14);
}

/// The decoded payload of a signed token. `exp` and `iat` count seconds
/// since the Unix epoch. A claim is ephemeral: it is rebuilt by parsing
/// the token string and never stored.
#[derive(Debug, Clone, PartialEq, Eq)]
pub struct Claims {
    pub sub: String,
    pub user_type: Option<String>,
    pub claim_type: String,
    pub exp: u64,
    pub iat: u64,
}

/// Mathematical image of a claim payload.
pub struct ClaimsView {
    pub sub: Seq<char>,
    pub user_type: Option<Seq<char>>,
    pub claim_type: Seq<char>,
    pub exp: u64,
    pub iat: u64,
}

impl View for Claims {
    type V = ClaimsView;

    open spec fn view(&self) -> ClaimsView {
        ClaimsView {
            sub: self.sub@,
            user_type: match self.user_type {
                Some(u) => Some(u@),
                None => None,
            },
            claim_type: self.claim_type@,
            exp: self.exp,
            iat: self.iat,
        }
    }
}

} // verus!
