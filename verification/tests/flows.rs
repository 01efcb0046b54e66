//! End-to-end scenarios of the orchestrated flows, run against the
//! in-memory store, the plain-text hasher and the null mailer with a
//! fixed clock.

use auth_core::auth::AuthService;
use auth_core::errors::AuthError;
use auth_core::hashing::PlainTextHasher;
use auth_core::jwt::JWT;
use auth_core::memstore::MemoryUserRepository;
use auth_core::notify::{AuthEvents, NullMailer};
use auth_core::user::{User, UserType};
use auth_core::users::UserService;
use auth_core::store::TUserRepositories;
use auth_core::validate::{CreateInputData, EmailInputData, LoginInputData, PasswordInputData};

const SECRET: &str = "test-secret-key";
const URL: &str = "https://app.example.com";

fn service() -> (AuthService, AuthEvents<NullMailer>, PlainTextHasher, MemoryUserRepository) {
    (
        AuthService::new(SECRET.to_string()),
        AuthEvents::new(URL.to_string(), NullMailer),
        PlainTextHasher,
        MemoryUserRepository::new(),
    )
}

fn signup_data(email: &str, password: &str) -> CreateInputData {
    CreateInputData {
        first_name: "Ann".to_string(),
        last_name: "Lee".to_string(),
        email: email.to_string(),
        password: password.to_string(),
        role: "Client".to_string(),
        phone: None,
    }
}

fn email_input(email: &str) -> EmailInputData {
    EmailInputData { email: email.to_string() }
}

fn login_input(email: &str, password: &str) -> LoginInputData {
    LoginInputData { email: email.to_string(), password: password.to_string() }
}

/// The verification token a signup at `t0` stores: the codec is
/// deterministic, so re-issuing with the same inputs reproduces it.
fn expected_verify_token(email: &str, t0: u64) -> String {
    JWT::new(SECRET.to_string()).verify_email(email, t0).unwrap()
}

fn user_stub(id: &str) -> User {
    User {
        id: id.to_string(),
        email: "a@b.com".to_string(),
        first_name: "Ann".to_string(),
        last_name: "Lee".to_string(),
        u_type: UserType::Client,
        password_alg: "plain".to_string(),
        password_hash: "secret1".to_string(),
        created_at: 0,
        tokens: Vec::new(),
    }
}

#[test]
fn signup_then_login_before_verification_is_refused() {
    let (svc, events, hasher, mut store) = service();
    let id = svc
        .create(&mut store, &events, &hasher, signup_data("a@b.com", "secret1"), 1_000)
        .unwrap();
    assert_eq!(id, "0");
    assert_eq!(
        svc.login(&mut store, &hasher, login_input("a@b.com", "secret1"), 1_001),
        Err(AuthError::EmailNotVerified)
    );
}

#[test]
fn duplicate_signup_is_refused() {
    let (svc, events, hasher, mut store) = service();
    svc.create(&mut store, &events, &hasher, signup_data("a@b.com", "secret1"), 1_000)
        .unwrap();
    assert_eq!(
        svc.create(&mut store, &events, &hasher, signup_data("a@b.com", "other66"), 2_000),
        Err(AuthError::DuplicateEmail)
    );
}

#[test]
fn email_verify_flips_the_flag_and_enables_login() {
    let (svc, events, hasher, mut store) = service();
    svc.create(&mut store, &events, &hasher, signup_data("a@b.com", "secret1"), 1_000)
        .unwrap();
    let token = expected_verify_token("a@b.com", 1_000);
    svc.email_verify(&mut store, &events, &token, 1_500).unwrap();
    let session = svc
        .login(&mut store, &hasher, login_input("a@b.com", "secret1"), 2_000)
        .unwrap();
    assert!(!session.is_empty());
}

#[test]
fn email_verify_twice_reports_already_verified() {
    let (svc, events, hasher, mut store) = service();
    svc.create(&mut store, &events, &hasher, signup_data("a@b.com", "secret1"), 1_000)
        .unwrap();
    let token = expected_verify_token("a@b.com", 1_000);
    svc.email_verify(&mut store, &events, &token, 1_500).unwrap();
    assert_eq!(
        svc.email_verify(&mut store, &events, &token, 1_600),
        Err(AuthError::AlreadyVerified)
    );
}

#[test]
fn stale_verification_token_after_reissue_is_revoked_not_expired() {
    let (svc, events, hasher, mut store) = service();
    let t0: u64 = 1_000;
    svc.create(&mut store, &events, &hasher, signup_data("a@b.com", "secret1"), t0)
        .unwrap();
    let stale = expected_verify_token("a@b.com", t0);
    // past the cooldown, a second verification email is allowed and
    // stores a fresh token, superseding the first
    let t1 = t0 + 601;
    svc.send_email_verification(&mut store, &events, email_input("a@b.com"), t1)
        .unwrap();
    let r = svc.email_verify(&mut store, &events, &stale, t1 + 1);
    assert_eq!(r, Err(AuthError::TokenExpiredOrRevoked));
    // the fresh token still verifies
    let fresh = expected_verify_token("a@b.com", t1);
    svc.email_verify(&mut store, &events, &fresh, t1 + 2).unwrap();
}

#[test]
fn send_email_verification_to_verified_address_is_refused() {
    let (svc, events, hasher, mut store) = service();
    svc.create(&mut store, &events, &hasher, signup_data("a@b.com", "secret1"), 1_000)
        .unwrap();
    let token = expected_verify_token("a@b.com", 1_000);
    svc.email_verify(&mut store, &events, &token, 1_500).unwrap();
    assert_eq!(
        svc.send_email_verification(&mut store, &events, email_input("a@b.com"), 2_000),
        Err(AuthError::AlreadyVerified)
    );
}

#[test]
fn send_email_verification_unknown_address_is_not_found() {
    let (svc, events, _hasher, mut store) = service();
    assert_eq!(
        svc.send_email_verification(&mut store, &events, email_input("no@body.com"), 1_000),
        Err(AuthError::NotFound)
    );
}

#[test]
fn forgot_password_twice_within_cooldown_is_rate_limited() {
    let (svc, events, hasher, mut store) = service();
    let t0: u64 = 1_000;
    svc.create(&mut store, &events, &hasher, signup_data("a@b.com", "secret1"), t0)
        .unwrap();
    let token = expected_verify_token("a@b.com", t0);
    svc.email_verify(&mut store, &events, &token, t0 + 1).unwrap();
    let t1 = t0 + 10;
    svc.forgot_password(&mut store, &events, email_input("a@b.com"), t1)
        .unwrap();
    assert_eq!(
        svc.forgot_password(&mut store, &events, email_input("a@b.com"), t1 + 1),
        Err(AuthError::RateLimited { minutes: 9, seconds: 59 })
    );
}

#[test]
fn forgot_password_needs_a_verified_address() {
    let (svc, events, hasher, mut store) = service();
    svc.create(&mut store, &events, &hasher, signup_data("a@b.com", "secret1"), 1_000)
        .unwrap();
    assert_eq!(
        svc.forgot_password(&mut store, &events, email_input("a@b.com"), 2_000),
        Err(AuthError::EmailNotVerified)
    );
}

#[test]
fn reset_password_switches_which_password_logs_in() {
    let (svc, events, hasher, mut store) = service();
    let t0: u64 = 1_000;
    let id = svc
        .create(&mut store, &events, &hasher, signup_data("a@b.com", "secret1"), t0)
        .unwrap();
    let verify = expected_verify_token("a@b.com", t0);
    svc.email_verify(&mut store, &events, &verify, t0 + 1).unwrap();
    let t1 = t0 + 700;
    svc.forgot_password(&mut store, &events, email_input("a@b.com"), t1)
        .unwrap();
    // the stored reset token is reproducible from the deterministic codec
    let reset = JWT::new(SECRET.to_string())
        .forgot_password(&user_stub(&id), t1)
        .unwrap();
    svc.reset_password(
        &mut store,
        &hasher,
        &reset,
        PasswordInputData { password: "newpass1".to_string() },
        t1 + 5,
    )
    .unwrap();
    assert_eq!(
        svc.login(&mut store, &hasher, login_input("a@b.com", "secret1"), t1 + 10),
        Err(AuthError::InvalidCredentials)
    );
    assert!(svc
        .login(&mut store, &hasher, login_input("a@b.com", "newpass1"), t1 + 11)
        .is_ok());
}

#[test]
fn reset_token_is_single_use() {
    let (svc, events, hasher, mut store) = service();
    let t0: u64 = 1_000;
    let id = svc
        .create(&mut store, &events, &hasher, signup_data("a@b.com", "secret1"), t0)
        .unwrap();
    let verify = expected_verify_token("a@b.com", t0);
    svc.email_verify(&mut store, &events, &verify, t0 + 1).unwrap();
    let t1 = t0 + 700;
    svc.forgot_password(&mut store, &events, email_input("a@b.com"), t1)
        .unwrap();
    let reset = JWT::new(SECRET.to_string())
        .forgot_password(&user_stub(&id), t1)
        .unwrap();
    svc.reset_password(
        &mut store,
        &hasher,
        &reset,
        PasswordInputData { password: "newpass1".to_string() },
        t1 + 5,
    )
    .unwrap();
    assert_eq!(
        svc.reset_password(
            &mut store,
            &hasher,
            &reset,
            PasswordInputData { password: "thirdpw1".to_string() },
            t1 + 6,
        ),
        Err(AuthError::TokenExpiredOrRevoked)
    );
}

#[test]
fn stale_reset_token_after_second_forgot_is_revoked() {
    let (svc, events, hasher, mut store) = service();
    let t0: u64 = 1_000;
    let id = svc
        .create(&mut store, &events, &hasher, signup_data("a@b.com", "secret1"), t0)
        .unwrap();
    let verify = expected_verify_token("a@b.com", t0);
    svc.email_verify(&mut store, &events, &verify, t0 + 1).unwrap();
    let t1 = t0 + 700;
    svc.forgot_password(&mut store, &events, email_input("a@b.com"), t1)
        .unwrap();
    let stale = JWT::new(SECRET.to_string())
        .forgot_password(&user_stub(&id), t1)
        .unwrap();
    let t2 = t1 + 601;
    svc.forgot_password(&mut store, &events, email_input("a@b.com"), t2)
        .unwrap();
    assert_eq!(
        svc.reset_password(
            &mut store,
            &hasher,
            &stale,
            PasswordInputData { password: "newpass1".to_string() },
            t2 + 1,
        ),
        Err(AuthError::TokenExpiredOrRevoked)
    );
}

#[test]
fn login_unknown_email_is_not_found() {
    let (svc, _events, hasher, mut store) = service();
    assert_eq!(
        svc.login(&mut store, &hasher, login_input("no@body.com", "secret1"), 1_000),
        Err(AuthError::NotFound)
    );
}

#[test]
fn session_is_valid_until_revoked() {
    let (svc, events, hasher, mut store) = service();
    let t0: u64 = 1_000;
    svc.create(&mut store, &events, &hasher, signup_data("a@b.com", "secret1"), t0)
        .unwrap();
    let verify = expected_verify_token("a@b.com", t0);
    svc.email_verify(&mut store, &events, &verify, t0 + 1).unwrap();
    let session = svc
        .login(&mut store, &hasher, login_input("a@b.com", "secret1"), t0 + 10)
        .unwrap();
    let users = UserService::new(SECRET.to_string());
    let me = users.get_current_user(&store, &session, t0 + 20).unwrap();
    assert_eq!(me.email, "a@b.com");
    svc.revoke_token(&mut store, &session, t0 + 30).unwrap();
    assert_eq!(
        users.get_current_user(&store, &session, t0 + 40),
        Err(AuthError::TokenExpiredOrRevoked)
    );
    // revoking again still succeeds: absence of the row is not an error
    svc.revoke_token(&mut store, &session, t0 + 50).unwrap();
}

#[test]
fn a_new_login_supersedes_the_old_session_row() {
    let (svc, events, hasher, mut store) = service();
    let t0: u64 = 1_000;
    svc.create(&mut store, &events, &hasher, signup_data("a@b.com", "secret1"), t0)
        .unwrap();
    let verify = expected_verify_token("a@b.com", t0);
    svc.email_verify(&mut store, &events, &verify, t0 + 1).unwrap();
    let first = svc
        .login(&mut store, &hasher, login_input("a@b.com", "secret1"), t0 + 10)
        .unwrap();
    let second = svc
        .login(&mut store, &hasher, login_input("a@b.com", "secret1"), t0 + 20)
        .unwrap();
    assert_ne!(first, second);
    let users = UserService::new(SECRET.to_string());
    // the first session token is no longer stored, so it is refused
    assert_eq!(
        users.get_current_user(&store, &first, t0 + 30),
        Err(AuthError::TokenExpiredOrRevoked)
    );
    assert!(users.get_current_user(&store, &second, t0 + 30).is_ok());
}

#[test]
fn listing_requires_an_admin_session() {
    let (svc, events, hasher, mut store) = service();
    let t0: u64 = 1_000;
    svc.create(&mut store, &events, &hasher, signup_data("a@b.com", "secret1"), t0)
        .unwrap();
    let verify = expected_verify_token("a@b.com", t0);
    svc.email_verify(&mut store, &events, &verify, t0 + 1).unwrap();
    let session = svc
        .login(&mut store, &hasher, login_input("a@b.com", "secret1"), t0 + 10)
        .unwrap();
    let users = UserService::new(SECRET.to_string());
    let params = auth_core::validate::GetAllParams {
        u_type: None,
        limit: None,
        skip: None,
        search: None,
    };
    // a Client session may not list users
    assert_eq!(
        users.get_all(&store, &session, params, t0 + 20),
        Err(AuthError::Forbidden)
    );
}

#[test]
fn listing_filters_searches_and_windows() {
    let mut store = MemoryUserRepository::new();
    for (first, last, email, role) in [
        ("Ann", "Lee", "ann@x.com", "Client"),
        ("Bob", "Stone", "bob@x.com", "Vendor"),
        ("Carol", "Lee", "carol@x.com", "Client"),
        ("Root", "Admin", "root@x.com", "Admin"),
    ] {
        store
            .insert(first, last, None, email, "h", "plain", role, true, true)
            .unwrap();
    }
    let jwt = JWT::new(SECRET.to_string());
    let admin = store.find_by_email("root@x.com").unwrap().0;
    let session = jwt.access(&admin, 1_000).unwrap();
    store
        .upsert_user_token(&admin.id, &session, "WEB")
        .unwrap();
    let users = UserService::new(SECRET.to_string());

    let by_role = users
        .get_all(
            &store,
            &session,
            auth_core::validate::GetAllParams {
                u_type: Some("Client".to_string()),
                limit: None,
                skip: None,
                search: None,
            },
            1_100,
        )
        .unwrap();
    let emails: Vec<&str> = by_role.iter().map(|u| u.email.as_str()).collect();
    assert_eq!(emails, vec!["ann@x.com", "carol@x.com"]);

    let by_search = users
        .get_all(
            &store,
            &session,
            auth_core::validate::GetAllParams {
                u_type: None,
                limit: None,
                skip: None,
                search: Some("Lee".to_string()),
            },
            1_100,
        )
        .unwrap();
    let emails: Vec<&str> = by_search.iter().map(|u| u.email.as_str()).collect();
    assert_eq!(emails, vec!["ann@x.com", "carol@x.com"]);

    let windowed = users
        .get_all(
            &store,
            &session,
            auth_core::validate::GetAllParams {
                u_type: None,
                limit: Some(2),
                skip: Some(1),
                search: None,
            },
            1_100,
        )
        .unwrap();
    // grouped by role: Clients first, then Vendors, then Admins
    let emails: Vec<&str> = windowed.iter().map(|u| u.email.as_str()).collect();
    assert_eq!(emails, vec!["carol@x.com", "bob@x.com"]);

    let bad = users.get_all(
        &store,
        &session,
        auth_core::validate::GetAllParams {
            u_type: Some("Root".to_string()),
            limit: None,
            skip: None,
            search: None,
        },
        1_100,
    );
    assert!(matches!(bad, Err(AuthError::Validation(_))));
}
