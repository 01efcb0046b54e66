//! User records as the credential store hands them out.

use vstd::prelude::*;
use crate::strutil::str_eq;

verus! {

/// Role of a user account.
#[derive(Debug, Clone, Copy, PartialEq, Eq, Structural)]
pub enum UserType {
    Client,
    Vendor,
    Admin,
}

impl UserType {
    /// The storage tag of this role.
    pub open spec fn spec_str(self) -> Seq<char> {
        match self {
            UserType::Client => "Client"@,
            UserType::Vendor => "Vendor"@,
            UserType::Admin => "Admin"@,
        }
    }

    /// The role a storage tag names, if any.
    pub open spec fn spec_from_str(s: Seq<char>) -> Option<UserType> {
        if s == "Admin"@ {
            Some(UserType::Admin)
        } else if s == "Client"@ {
            Some(UserType::Client)
        } else if s == "Vendor"@ {
            Some(UserType::Vendor)
        } else {
            None
        }
    }

    /// Reads a role tag; an unknown tag is a typed error, never a panic.
    pub fn from_str(role: &str) -> (r: Result<UserType, String>)
        ensures
            match UserType::spec_from_str(role@) {
                Some(t) => r == Ok::<UserType, String>(t),
                None => r matches Err(m) && m@ == "User type is invalid"@,
            },
    {
        if str_eq(role, "Admin") {
            Ok(UserType::Admin)
        } else if str_eq(role, "Client") {
            Ok(UserType::Client)
        } else if str_eq(role, "Vendor") {
            Ok(UserType::Vendor)
        } else {
            Err("User type is invalid".to_owned())
        }
    }

    /// The storage tag of this role.
    pub fn as_str(&self) -> (r: &'static str)
        ensures
            r@ == self.spec_str(),
    {
        match self {
            UserType::Client => "Client",
            UserType::Vendor => "Vendor",
            UserType::Admin => "Admin",
        }
    }
}

/// One stored token row: the signed string and the purpose tag that keys it.
#[derive(Debug, Clone, PartialEq, Eq)]
pub struct UserToken {
    pub token: String,
    pub used_for: String,
}

/// Mathematical image of a token row.
pub struct TokenView {
    pub token: Seq<char>,
    pub used_for: Seq<char>,
}

impl View for UserToken {
    type V = TokenView;

    open spec fn view(&self) -> TokenView {
        TokenView { token: self.token@, used_for: self.used_for@ }
    }
}

/// The primary-email record bound to a user.
#[derive(Debug, Clone, PartialEq, Eq)]
pub struct UserEmail {
    pub is_primary: bool,
    pub is_verified: bool,
    pub email: String,
}

/// Mathematical image of an email record.
pub struct UserEmailView {
    pub is_primary: bool,
    pub is_verified: bool,
    pub email: Seq<char>,
}

impl View for UserEmail {
    type V = UserEmailView;

    open spec fn view(&self) -> UserEmailView {
        UserEmailView {
            is_primary: self.is_primary,
            is_verified: self.is_verified,
            email: self.email@,
        }
    }
}

/// A user account, with the token rows the store currently holds for it.
/// `created_at` counts seconds since the Unix epoch.
#[derive(Debug, Clone, PartialEq, Eq)]
pub struct User {
    pub id: String,
    pub email: String,
    pub first_name: String,
    pub last_name: String,
    pub u_type: UserType,
    pub password_alg: String,
    pub password_hash: String,
    pub created_at: u64,
    pub tokens: Vec<UserToken>,
}

/// The views of a sequence of token rows, in order.
pub open spec fn tokens_view(v: Seq<UserToken>) -> Seq<TokenView> {
    Seq::new(v.len(), |i: int| v[i]@)
}

/// Mathematical image of a user account.
pub struct UserView {
    pub id: Seq<char>,
    pub email: Seq<char>,
    pub first_name: Seq<char>,
    pub last_name: Seq<char>,
    pub u_type: UserType,
    pub password_alg: Seq<char>,
    pub password_hash: Seq<char>,
    pub created_at: u64,
    pub tokens: Seq<TokenView>,
}

impl View for User {
    type V = UserView;

    open spec fn view(&self) -> UserView {
        UserView {
            id: self.id@,
            email: self.email@,
            first_name: self.first_name@,
            last_name: self.last_name@,
            u_type: self.u_type,
            password_alg: self.password_alg@,
            password_hash: self.password_hash@,
            created_at: self.created_at,
            tokens: tokens_view(self.tokens@),
        }
    }
}

} // verus!
