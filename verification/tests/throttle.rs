//! Tests of the re-issuance throttle at and around the cooldown boundary.

use auth_core::errors::AuthError;
use auth_core::jwt::JWT;
use auth_core::throttle::check_can_send_email;

const SECRET: &str = "test-secret-key";

#[test]
fn no_stored_token_is_allowed() {
    let jwt = JWT::new(SECRET.to_string());
    assert_eq!(check_can_send_email(&jwt, None, 600, 1_000), Ok(()));
}

#[test]
fn unparseable_stored_token_is_allowed() {
    let jwt = JWT::new(SECRET.to_string());
    let garbage = "definitely.not.a-token".to_string();
    assert_eq!(check_can_send_email(&jwt, Some(&garbage), 600, 1_000), Ok(()));
}

#[test]
fn expired_stored_token_is_allowed() {
    let jwt = JWT::new(SECRET.to_string());
    let t = jwt.verify_email("a@b.com", 1_000).unwrap();
    assert_eq!(
        check_can_send_email(&jwt, Some(&t), 600, 1_000 + 86_401),
        Ok(())
    );
}

#[test]
fn one_second_before_cooldown_ends_is_rate_limited() {
    let jwt = JWT::new(SECRET.to_string());
    let t0: u64 = 1_000;
    let t = jwt.verify_email("a@b.com", t0).unwrap();
    let r = check_can_send_email(&jwt, Some(&t), 600, t0 + 600 - 1);
    assert_eq!(r, Err(AuthError::RateLimited { minutes: 0, seconds: 1 }));
}

#[test]
fn one_second_after_cooldown_ends_is_allowed() {
    let jwt = JWT::new(SECRET.to_string());
    let t0: u64 = 1_000;
    let t = jwt.verify_email("a@b.com", t0).unwrap();
    assert_eq!(check_can_send_email(&jwt, Some(&t), 600, t0 + 600 + 1), Ok(()));
}

#[test]
fn exactly_at_cooldown_end_is_allowed() {
    let jwt = JWT::new(SECRET.to_string());
    let t0: u64 = 1_000;
    let t = jwt.verify_email("a@b.com", t0).unwrap();
    assert_eq!(check_can_send_email(&jwt, Some(&t), 600, t0 + 600), Ok(()));
}

#[test]
fn immediate_retry_reports_whole_cooldown() {
    let jwt = JWT::new(SECRET.to_string());
    let t0: u64 = 1_000;
    let t = jwt.verify_email("a@b.com", t0).unwrap();
    assert_eq!(
        check_can_send_email(&jwt, Some(&t), 600, t0),
        Err(AuthError::RateLimited { minutes: 10, seconds: 0 })
    );
}

#[test]
fn issue_time_in_the_future_is_a_clock_anomaly() {
    let jwt = JWT::new(SECRET.to_string());
    let t = jwt.verify_email("a@b.com", 2_000).unwrap();
    assert_eq!(
        check_can_send_email(&jwt, Some(&t), 600, 1_999),
        Err(AuthError::ClockAnomaly)
    );
}
