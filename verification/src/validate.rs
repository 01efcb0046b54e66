//! Input shapes of the auth operations and their field-level validation.
//!
//! Validation collects one entry per failing field, in declaration order,
//! with the message the caller shows verbatim.

use vstd::prelude::*;
use vstd::string::StrSliceExecFns;
use crate::errors::{AuthError, FieldError};
use crate::strutil::str_eq;

verus! {

/// Whether a string passes the email shape check.
pub uninterp spec fn email_ok(s: Seq<char>) -> bool;

/// Relies on `validator::validate_email` (the HTML5-style address check):
/// the verdict is a function of the characters alone.
#[verifier::external_body]
fn is_valid_email(s: &str) -> (r: bool)
    ensures
        r == email_ok(s@),
{
    validator::validate_email(s)
}

/// A role a signup may ask for: administrators cannot sign themselves up.
pub open spec fn signup_role_ok(r: Seq<char>) -> bool {
    r == "Client"@ || r == "Vendor"@
}

/// A role tag a user listing may filter by.
pub open spec fn filter_role_ok(r: Seq<char>) -> bool {
    r == "Client"@ || r == "Vendor"@ || r == "Admin"@
}

/// The `(field, message)` pairs a validation outcome must carry.
pub open spec fn field_pairs(v: Seq<FieldError>) -> Seq<(Seq<char>, Seq<char>)> {
    v.map_values(|fe: FieldError| (fe.field@, fe.message@))
}

/// Relates an exec validation result to the expected pair list: `Ok` when
/// nothing failed, else exactly the expected validation error.
pub open spec fn validation_result(r: Result<(), AuthError>, expected: Seq<(Seq<char>, Seq<char>)>) -> bool {
    if expected.len() == 0 {
        r == Ok::<(), AuthError>(())
    } else {
        r matches Err(AuthError::Validation(v)) && field_pairs(v@) == expected
    }
}

fn push_field(v: &mut Vec<FieldError>, field: &str, message: &str)
    ensures
        field_pairs(final(v)@) == field_pairs(old(v)@).push((field@, message@)),
{
    v.push(FieldError { field: field.to_owned(), message: message.to_owned() });
    proof {
        assert(field_pairs(v@) =~= field_pairs(old(v)@).push((field@, message@)));
    }
}

/// What a signup request carries.
#[derive(Debug, Clone)]
pub struct CreateInputData {
    pub first_name: String,
    pub last_name: String,
    pub email: String,
    pub password: String,
    pub role: String,
    pub phone: Option<String>,
}

/// The failing fields of a signup request, in declaration order.
pub open spec fn signup_errors(d: CreateInputData) -> Seq<(Seq<char>, Seq<char>)> {
    let e = Seq::<(Seq<char>, Seq<char>)>::empty();
    let e = if d.first_name@.len() < 2 {
        e.push(("first_name"@, "The first name length should be min 2 symbols"@))
    } else {
        e
    };
    let e = if d.last_name@.len() < 2 {
        e.push(("last_name"@, "The last name length should be min 2 symbols"@))
    } else {
        e
    };
    let e = if !email_ok(d.email@) {
        e.push(("email"@, "Email is invalid"@))
    } else {
        e
    };
    let e = if d.password@.len() < 6 {
        e.push(("password"@, "Password is invalid"@))
    } else {
        e
    };
    let e = if !signup_role_ok(d.role@) {
        e.push(("role"@, "User role is invalid"@))
    } else {
        e
    };
    e
}

impl CreateInputData {
    /// Checks the request shape; `Ok` exactly when every field passes.
    pub fn validate(&self) -> (r: Result<(), AuthError>)
        ensures
            validation_result(r, signup_errors(*self)),
            r is Ok <==> signup_errors(*self).len() == 0,
    {
        let mut v: Vec<FieldError> = Vec::new();
        if self.first_name.as_str().unicode_len() < 2 {
            push_field(&mut v, "first_name", "The first name length should be min 2 symbols");
        }
        if self.last_name.as_str().unicode_len() < 2 {
            push_field(&mut v, "last_name", "The last name length should be min 2 symbols");
        }
        if !is_valid_email(self.email.as_str()) {
            push_field(&mut v, "email", "Email is invalid");
        }
        if self.password.as_str().unicode_len() < 6 {
            push_field(&mut v, "password", "Password is invalid");
        }
        if !(str_eq(self.role.as_str(), "Client") || str_eq(self.role.as_str(), "Vendor")) {
            push_field(&mut v, "role", "User role is invalid");
        }
        if v.len() == 0 {
            proof {
                assert(field_pairs(v@) =~= signup_errors(*self));
            }
            Ok(())
        } else {
            proof {
                assert(field_pairs(v@) =~= signup_errors(*self));
            }
            Err(AuthError::Validation(v))
        }
    }
}

/// What a login request carries.
#[derive(Debug, Clone)]
pub struct LoginInputData {
    pub email: String,
    pub password: String,
}

/// The failing fields of a login request, in declaration order.
pub open spec fn login_errors(d: LoginInputData) -> Seq<(Seq<char>, Seq<char>)> {
    let e = Seq::<(Seq<char>, Seq<char>)>::empty();
    let e = if !email_ok(d.email@) {
        e.push(("email"@, "Email is invalid"@))
    } else {
        e
    };
    let e = if d.password@.len() < 6 {
        e.push(("password"@, "Password is invalid"@))
    } else {
        e
    };
    e
}

impl LoginInputData {
    /// Checks the request shape; `Ok` exactly when every field passes.
    pub fn validate(&self) -> (r: Result<(), AuthError>)
        ensures
            validation_result(r, login_errors(*self)),
            r is Ok <==> login_errors(*self).len() == 0,
    {
        let mut v: Vec<FieldError> = Vec::new();
        if !is_valid_email(self.email.as_str()) {
            push_field(&mut v, "email", "Email is invalid");
        }
        if self.password.as_str().unicode_len() < 6 {
            push_field(&mut v, "password", "Password is invalid");
        }
        if v.len() == 0 {
            proof {
                assert(field_pairs(v@) =~= login_errors(*self));
            }
            Ok(())
        } else {
            proof {
                assert(field_pairs(v@) =~= login_errors(*self));
            }
            Err(AuthError::Validation(v))
        }
    }
}

/// A request that carries only an email address.
#[derive(Debug, Clone)]
pub struct EmailInputData {
    pub email: String,
}

/// The failing fields of an email-only request.
pub open spec fn email_errors(d: EmailInputData) -> Seq<(Seq<char>, Seq<char>)> {
    if !email_ok(d.email@) {
        Seq::<(Seq<char>, Seq<char>)>::empty().push(("email"@, "Email is invalid"@))
    } else {
        Seq::<(Seq<char>, Seq<char>)>::empty()
    }
}

impl EmailInputData {
    /// Checks the request shape; `Ok` exactly when the email passes.
    pub fn validate(&self) -> (r: Result<(), AuthError>)
        ensures
            validation_result(r, email_errors(*self)),
            r is Ok <==> email_errors(*self).len() == 0,
    {
        let mut v: Vec<FieldError> = Vec::new();
        if !is_valid_email(self.email.as_str()) {
            push_field(&mut v, "email", "Email is invalid");
        }
        if v.len() == 0 {
            proof {
                assert(field_pairs(v@) =~= email_errors(*self));
            }
            Ok(())
        } else {
            proof {
                assert(field_pairs(v@) =~= email_errors(*self));
            }
            Err(AuthError::Validation(v))
        }
    }
}

/// A request that carries only a new password.
#[derive(Debug, Clone)]
pub struct PasswordInputData {
    pub password: String,
}

/// The failing fields of a password-only request.
pub open spec fn password_errors(d: PasswordInputData) -> Seq<(Seq<char>, Seq<char>)> {
    if d.password@.len() < 6 {
        Seq::<(Seq<char>, Seq<char>)>::empty().push(("password"@, "Password is invalid"@))
    } else {
        Seq::<(Seq<char>, Seq<char>)>::empty()
    }
}

impl PasswordInputData {
    /// Checks the request shape; `Ok` exactly when the password passes.
    pub fn validate(&self) -> (r: Result<(), AuthError>)
        ensures
            validation_result(r, password_errors(*self)),
            r is Ok <==> password_errors(*self).len() == 0,
    {
        let mut v: Vec<FieldError> = Vec::new();
        if self.password.as_str().unicode_len() < 6 {
            push_field(&mut v, "password", "Password is invalid");
        }
        if v.len() == 0 {
            proof {
                assert(field_pairs(v@) =~= password_errors(*self));
            }
            Ok(())
        } else {
            proof {
                assert(field_pairs(v@) =~= password_errors(*self));
            }
            Err(AuthError::Validation(v))
        }
    }
}

/// Filters of a user listing.
#[derive(Debug, Clone)]
pub struct GetAllParams {
    pub u_type: Option<String>,
    pub limit: Option<i64>,
    pub skip: Option<i64>,
    pub search: Option<String>,
}

/// The failing fields of a user-listing request.
pub open spec fn get_all_errors(d: GetAllParams) -> Seq<(Seq<char>, Seq<char>)> {
    match d.u_type {
        Some(t) => if !filter_role_ok(t@) {
            Seq::<(Seq<char>, Seq<char>)>::empty().push(("u_type"@, "User type is invalid"@))
        } else {
            Seq::<(Seq<char>, Seq<char>)>::empty()
        },
        None => Seq::<(Seq<char>, Seq<char>)>::empty(),
    }
}

impl GetAllParams {
    /// Checks the filters; `Ok` exactly when the role filter, if any, is
    /// a known role tag.
    pub fn validate(&self) -> (r: Result<(), AuthError>)
        ensures
            validation_result(r, get_all_errors(*self)),
            r is Ok <==> get_all_errors(*self).len() == 0,
    {
        let mut v: Vec<FieldError> = Vec::new();
        match &self.u_type {
            Some(t) => {
                if !(str_eq(t.as_str(), "Client") || str_eq(t.as_str(), "Vendor") || str_eq(
                    t.as_str(),
                    "Admin",
                )) {
                    push_field(&mut v, "u_type", "User type is invalid");
                }
            },
            None => {},
        }
        if v.len() == 0 {
            proof {
                assert(field_pairs(v@) =~= get_all_errors(*self));
            }
            Ok(())
        } else {
            proof {
                assert(field_pairs(v@) =~= get_all_errors(*self));
            }
            Err(AuthError::Validation(v))
        }
    }
}

} // verus!
