//! Tests of the token codec: issue/parse round trips, purpose binding,
//! expiry, and rejection of tampered or foreign-key tokens.

use auth_core::claims::ClaimType;
use auth_core::errors::AuthError;
use auth_core::jwt::JWT;

const SECRET: &str = "test-secret-key";

#[test]
fn issue_parse_round_trip_subject() {
    let jwt = JWT::new(SECRET.to_string());
    let t = jwt.verify_email("a@b.com", 1_000).unwrap();
    let c = jwt.parse(&t, Some(ClaimType::VerifyEmail), 1_000).unwrap();
    assert_eq!(c.sub, "a@b.com");
    assert_eq!(c.claim_type, "VerifyEmail");
    assert_eq!(c.iat, 1_000);
    assert_eq!(c.exp, 1_000 + 86_400);
    assert_eq!(c.user_type, None);
}

#[test]
fn parse_accepts_any_purpose_when_none_expected() {
    let jwt = JWT::new(SECRET.to_string());
    let t = jwt.verify_email("a@b.com", 1_000).unwrap();
    let c = jwt.parse(&t, None, 1_000).unwrap();
    assert_eq!(c.sub, "a@b.com");
}

#[test]
fn parse_with_wrong_purpose_is_mismatch() {
    let jwt = JWT::new(SECRET.to_string());
    let t = jwt.verify_email("a@b.com", 1_000).unwrap();
    assert_eq!(
        jwt.parse(&t, Some(ClaimType::Login), 1_000),
        Err(AuthError::PurposeMismatch)
    );
    assert_eq!(
        jwt.parse(&t, Some(ClaimType::ForgotPassword), 1_000),
        Err(AuthError::PurposeMismatch)
    );
}

#[test]
fn parse_after_expiry_is_expired() {
    let jwt = JWT::new(SECRET.to_string());
    let t = jwt.verify_email("a@b.com", 1_000).unwrap();
    assert_eq!(
        jwt.parse(&t, Some(ClaimType::VerifyEmail), 1_000 + 86_401),
        Err(AuthError::ExpiredToken)
    );
    // the last second of validity still parses
    assert!(jwt.parse(&t, Some(ClaimType::VerifyEmail), 1_000 + 86_400).is_ok());
}

#[test]
fn parse_with_other_secret_is_invalid() {
    let jwt = JWT::new(SECRET.to_string());
    let other = JWT::new("another-secret".to_string());
    let t = jwt.verify_email("a@b.com", 1_000).unwrap();
    assert_eq!(
        other.parse(&t, Some(ClaimType::VerifyEmail), 1_000),
        Err(AuthError::InvalidToken)
    );
}

#[test]
fn tampered_or_malformed_tokens_are_invalid() {
    let jwt = JWT::new(SECRET.to_string());
    let mut t = jwt.verify_email("a@b.com", 1_000).unwrap();
    t.push('x');
    assert_eq!(
        jwt.parse(&t, Some(ClaimType::VerifyEmail), 1_000),
        Err(AuthError::InvalidToken)
    );
    assert_eq!(jwt.parse("", None, 1_000), Err(AuthError::InvalidToken));
    assert_eq!(
        jwt.parse("not.a.token", None, 1_000),
        Err(AuthError::InvalidToken)
    );
}

#[test]
fn access_token_carries_login_purpose_and_seven_days() {
    let jwt = JWT::new(SECRET.to_string());
    let user = auth_core::user::User {
        id: "42".to_string(),
        email: "a@b.com".to_string(),
        first_name: "Ann".to_string(),
        last_name: "Lee".to_string(),
        u_type: auth_core::user::UserType::Client,
        password_alg: "plain".to_string(),
        password_hash: "secret1".to_string(),
        created_at: 0,
        tokens: Vec::new(),
    };
    let t = jwt.access(&user, 5_000).unwrap();
    let c = jwt.parse(&t, Some(ClaimType::Login), 5_000).unwrap();
    assert_eq!(c.sub, "42");
    assert_eq!(c.user_type, Some("Client".to_string()));
    assert_eq!(c.exp, 5_000 + 7 * 86_400);
}

#[test]
fn forgot_password_token_carries_purpose_and_id() {
    let jwt = JWT::new(SECRET.to_string());
    let user = auth_core::user::User {
        id: "7".to_string(),
        email: "a@b.com".to_string(),
        first_name: "Ann".to_string(),
        last_name: "Lee".to_string(),
        u_type: auth_core::user::UserType::Vendor,
        password_alg: "plain".to_string(),
        password_hash: "secret1".to_string(),
        created_at: 0,
        tokens: Vec::new(),
    };
    let t = jwt.forgot_password(&user, 5_000).unwrap();
    let c = jwt.parse(&t, Some(ClaimType::ForgotPassword), 5_000).unwrap();
    assert_eq!(c.sub, "7");
    assert_eq!(c.user_type, Some("Vendor".to_string()));
    assert_eq!(c.exp, 5_000 + 86_400);
}

#[test]
fn claim_type_tags() {
    assert_eq!(ClaimType::Refresh.as_str(), "Refresh");
    assert_eq!(ClaimType::Login.as_str(), "Login");
    assert_eq!(ClaimType::VerifyEmail.as_str(), "VerifyEmail");
    assert_eq!(ClaimType::ForgotPassword.as_str(), "ForgotPassword");
}
