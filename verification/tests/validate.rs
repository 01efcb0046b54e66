//! Tests of the field-level input validation.

use auth_core::errors::{AuthError, FieldError};
use auth_core::validate::{
    CreateInputData, EmailInputData, GetAllParams, LoginInputData, PasswordInputData,
};

fn data(
    first_name: &str,
    last_name: &str,
    email: &str,
    password: &str,
    role: &str,
) -> CreateInputData {
    CreateInputData {
        first_name: first_name.to_string(),
        last_name: last_name.to_string(),
        email: email.to_string(),
        password: password.to_string(),
        role: role.to_string(),
        phone: None,
    }
}

fn fields(r: Result<(), AuthError>) -> Vec<FieldError> {
    match r {
        Err(AuthError::Validation(v)) => v,
        other => panic!("expected a validation error, got {:?}", other),
    }
}

#[test]
fn valid_signup_input_passes() {
    assert_eq!(data("Ann", "Lee", "a@b.com", "secret1", "Client").validate(), Ok(()));
    assert_eq!(data("Bo", "Yu", "x@y.org", "123456", "Vendor").validate(), Ok(()));
}

#[test]
fn each_failing_field_is_reported_in_order() {
    let v = fields(data("A", "L", "nonsense", "short", "Admin").validate());
    let got: Vec<(&str, &str)> =
        v.iter().map(|f| (f.field.as_str(), f.message.as_str())).collect();
    assert_eq!(
        got,
        vec![
            ("first_name", "The first name length should be min 2 symbols"),
            ("last_name", "The last name length should be min 2 symbols"),
            ("email", "Email is invalid"),
            ("password", "Password is invalid"),
            ("role", "User role is invalid"),
        ]
    );
}

#[test]
fn admin_is_not_a_signup_role() {
    let v = fields(data("Ann", "Lee", "a@b.com", "secret1", "Admin").validate());
    assert_eq!(v.len(), 1);
    assert_eq!(v[0].field, "role");
}

#[test]
fn short_password_is_rejected() {
    let v = fields(data("Ann", "Lee", "a@b.com", "five5", "Client").validate());
    assert_eq!(v.len(), 1);
    assert_eq!(v[0].field, "password");
    assert_eq!(v[0].message, "Password is invalid");
}

#[test]
fn email_shapes() {
    assert_eq!(EmailInputData { email: "a@b.com".to_string() }.validate(), Ok(()));
    let v = fields(EmailInputData { email: "".to_string() }.validate());
    assert_eq!(v[0].field, "email");
    assert!(EmailInputData { email: "no-at-sign".to_string() }.validate().is_err());
    // the HTML5-style rule does not demand a dot in the domain
    assert!(EmailInputData { email: "a@b".to_string() }.validate().is_ok());
}

#[test]
fn login_input_collects_both_fields() {
    let v = fields(
        LoginInputData { email: "bad".to_string(), password: "pw".to_string() }.validate(),
    );
    let got: Vec<&str> = v.iter().map(|f| f.field.as_str()).collect();
    assert_eq!(got, vec!["email", "password"]);
}

#[test]
fn password_input_minimum_length() {
    assert_eq!(PasswordInputData { password: "newpass1".to_string() }.validate(), Ok(()));
    assert!(PasswordInputData { password: "12345".to_string() }.validate().is_err());
}

#[test]
fn listing_filter_role_must_be_known() {
    let ok = GetAllParams { u_type: None, limit: None, skip: None, search: None };
    assert_eq!(ok.validate(), Ok(()));
    let admin = GetAllParams {
        u_type: Some("Admin".to_string()),
        limit: Some(10),
        skip: Some(0),
        search: None,
    };
    assert_eq!(admin.validate(), Ok(()));
    let bad = GetAllParams {
        u_type: Some("Root".to_string()),
        limit: None,
        skip: None,
        search: None,
    };
    let v = fields(bad.validate());
    assert_eq!(v[0].field, "u_type");
    assert_eq!(v[0].message, "User type is invalid");
}
