//! Tests of the in-memory credential store against its contract, and of
//! the small helpers around it.

use auth_core::memstore::MemoryUserRepository;
use auth_core::notify::{AuthEvents, Notifier, NullMailer};
use auth_core::store::TUserRepositories;
use auth_core::strutil::{is_substring, u64_to_string};
use auth_core::user::UserType;

fn seeded() -> (MemoryUserRepository, String) {
    let mut store = MemoryUserRepository::new();
    let id = store
        .insert(
            "Ann",
            "Lee",
            None,
            "a@b.com",
            "hash-1",
            "plain",
            "Client",
            false,
            true,
        )
        .unwrap();
    (store, id)
}

#[test]
fn insert_assigns_sequential_ids() {
    let (mut store, id) = seeded();
    assert_eq!(id, "0");
    let id2 = store
        .insert("Bo", "Yu", None, "b@c.com", "hash-2", "plain", "Vendor", false, true)
        .unwrap();
    assert_eq!(id2, "1");
}

#[test]
fn find_by_email_returns_the_row_and_the_email_record() {
    let (store, id) = seeded();
    let (user, email) = store.find_by_email("a@b.com").unwrap();
    assert_eq!(user.id, id);
    assert_eq!(user.first_name, "Ann");
    assert_eq!(user.u_type, UserType::Client);
    assert_eq!(user.password_hash, "hash-1");
    assert!(email.is_primary);
    assert!(!email.is_verified);
    assert!(store.find_by_email("x@y.com").is_none());
}

#[test]
fn find_by_id_returns_the_row() {
    let (store, id) = seeded();
    let user = store.find_by_id(&id).unwrap();
    assert_eq!(user.email, "a@b.com");
    assert!(store.find_by_id("999").is_none());
}

#[test]
fn find_by_type_filters_by_role() {
    let (mut store, _) = seeded();
    store
        .insert("Bo", "Yu", None, "b@c.com", "hash-2", "plain", "Admin", true, true)
        .unwrap();
    let admins = store.find_by_type(&UserType::Admin);
    assert_eq!(admins.len(), 1);
    assert_eq!(admins[0].email, "b@c.com");
    assert_eq!(store.find_by_type(&UserType::Vendor).len(), 0);
}

#[test]
fn upsert_keeps_one_row_per_purpose() {
    let (mut store, id) = seeded();
    store.upsert_user_token(&id, "tok-1", "SEND_EMAIL").unwrap();
    assert_eq!(store.find_token_by(&id, "SEND_EMAIL"), Some("tok-1".to_string()));
    store.upsert_user_token(&id, "tok-2", "SEND_EMAIL").unwrap();
    assert_eq!(store.find_token_by(&id, "SEND_EMAIL"), Some("tok-2".to_string()));
    store.upsert_user_token(&id, "web-1", "WEB").unwrap();
    assert_eq!(store.find_token_by(&id, "WEB"), Some("web-1".to_string()));
    assert_eq!(store.find_token_by(&id, "SEND_EMAIL"), Some("tok-2".to_string()));
    let user = store.find_by_id(&id).unwrap();
    assert_eq!(user.tokens.len(), 2);
}

#[test]
fn remove_deletes_only_the_listed_strings() {
    let (mut store, id) = seeded();
    store.upsert_user_token(&id, "tok-1", "SEND_EMAIL").unwrap();
    store.upsert_user_token(&id, "web-1", "WEB").unwrap();
    store
        .remove_user_tokens(&id, &vec!["tok-1".to_string()])
        .unwrap();
    assert_eq!(store.find_token_by(&id, "SEND_EMAIL"), None);
    assert_eq!(store.find_token_by(&id, "WEB"), Some("web-1".to_string()));
    // removing for an unknown user is not an error
    store
        .remove_user_tokens("999", &vec!["tok-1".to_string()])
        .unwrap();
}

#[test]
fn update_password_reports_whether_a_row_changed() {
    let (mut store, id) = seeded();
    assert_eq!(store.update_password(&id, "plain", "hash-9"), Ok(true));
    assert_eq!(store.find_by_id(&id).unwrap().password_hash, "hash-9");
    assert_eq!(store.update_password("999", "plain", "x"), Ok(false));
}

#[test]
fn update_verify_email_flips_the_flag() {
    let (mut store, _) = seeded();
    assert_eq!(store.update_verify_email("a@b.com", true), Ok(true));
    let (_, email) = store.find_by_email("a@b.com").unwrap();
    assert!(email.is_verified);
    assert_eq!(store.update_verify_email("x@y.com", true), Ok(false));
}

#[test]
fn decimal_rendering() {
    assert_eq!(u64_to_string(0), "0");
    assert_eq!(u64_to_string(7), "7");
    assert_eq!(u64_to_string(10), "10");
    assert_eq!(u64_to_string(90210), "90210");
    assert_eq!(u64_to_string(u64::MAX), "18446744073709551615");
}

#[test]
fn notification_links_embed_the_token() {
    let events = AuthEvents::new("https://app.example.com".to_string(), NullMailer);
    assert_eq!(
        events.confirmation_url("tok-1"),
        "https://app.example.com/auth/confirmation-email?token=tok-1"
    );
    assert_eq!(
        events.reset_url("tok-2"),
        "https://app.example.com/auth/reset-password?token=tok-2"
    );
    assert_eq!(events.on_send_email_verify("a@b.com", "tok-1"), Ok(()));
    assert_eq!(events.on_forgot_password("a@b.com", "tok-2"), Ok(()));
    assert_eq!(events.on_create_user("a@b.com", vec![]), Ok(()));
}

#[test]
fn notifier_variant_sends_the_same_links() {
    let n = Notifier::new("https://app.example.com".to_string(), NullMailer);
    assert_eq!(n.on_send_email_verify("a@b.com", "tok-1"), Ok(()));
    assert_eq!(n.on_forgot_password("a@b.com", "tok-2"), Ok(()));
    assert_eq!(n.on_create_user("a@b.com", vec![]), Ok(()));
}

#[test]
fn substring_search() {
    assert!(is_substring("hello world", "lo wo"));
    assert!(is_substring("hello", "hello"));
    assert!(is_substring("hello", ""));
    assert!(!is_substring("hello", "hellos"));
    assert!(!is_substring("abc", "ca"));
    assert!(is_substring("aaab", "aab"));
}
