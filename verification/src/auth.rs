//! The auth orchestrator: signup, login, email verification, password
//! reset and revocation, composed over the token codec, the throttle
//! policy and the abstract collaborators.

use vstd::prelude::*;
use crate::claims::{ClaimType, ClaimsView};
use crate::errors::AuthError;
use crate::hashing::TPasswordHasher;
use crate::jwt::{claims_of, issued_claims, parse_spec, token_of, JWT};
use crate::notify::{AuthEvents, TEmail};
use crate::store::{
    email_idx, has_email, has_user_id, id_idx, id_pred, lemma_first_idx, lemma_first_idx_is,
    new_account, remove_tokens_a, set_password_a, set_verified_a, store_inv, token_for,
    upsert_token_a, AccountView, TUserRepositories,
};
use crate::throttle::{check_can_send_email, throttle_spec, DURATION_OF_SEND_EMAIL};
use crate::user::{User, UserType};
use crate::validate::{
    email_errors, field_pairs, login_errors, password_errors, signup_errors, CreateInputData,
    EmailInputData, LoginInputData, PasswordInputData,
};

verus! {

/// The claim a fresh email-verification token carries.
pub open spec fn verify_token_claims(email: Seq<char>, now: u64) -> ClaimsView {
    issued_claims(email, None, ClaimType::VerifyEmail, 1, now)
}

/// The claim a fresh login token carries.
pub open spec fn login_token_claims(u: crate::user::UserView, now: u64) -> ClaimsView {
    issued_claims(u.id, Some(u.u_type.spec_str()), ClaimType::Login, 7, now)
}

/// The claim a fresh password-reset token carries.
pub open spec fn reset_token_claims(u: crate::user::UserView, now: u64) -> ClaimsView {
    issued_claims(u.id, Some(u.u_type.spec_str()), ClaimType::ForgotPassword, 1, now)
}

/// The store grew by exactly one unverified account for the signup data,
/// hashed under the given hasher; the id and what the store chose are
/// existential, the relation to the password is not.
pub open spec fn signup_inserted<H: TPasswordHasher>(
    s0: Seq<AccountView>,
    s1: Seq<AccountView>,
    d: CreateInputData,
    hasher: H,
    id: Seq<char>,
) -> bool {
    exists|alg: Seq<char>, h: Seq<char>, ts: u64|
        hasher.pwd_matches(h, d.password@) && s1 == s0.push(
            new_account(
                id,
                d.first_name@,
                d.last_name@,
                d.email@,
                h,
                alg,
                UserType::spec_from_str(d.role@).unwrap(),
                false,
                ts,
            ),
        )
}

/// The store grew by exactly one unverified account for the signup data,
/// already carrying `t` as its single `SEND_EMAIL` token row.
pub open spec fn signup_completed<H: TPasswordHasher>(
    s0: Seq<AccountView>,
    s1: Seq<AccountView>,
    d: CreateInputData,
    hasher: H,
    id: Seq<char>,
    t: Seq<char>,
) -> bool {
    exists|alg: Seq<char>, h: Seq<char>, ts: u64|
        hasher.pwd_matches(h, d.password@) && s1 == s0.push(
            upsert_token_a(
                new_account(
                    id,
                    d.first_name@,
                    d.last_name@,
                    d.email@,
                    h,
                    alg,
                    UserType::spec_from_str(d.role@).unwrap(),
                    false,
                    ts,
                ),
                t,
                "SEND_EMAIL"@,
            ),
        )
}

/// The orchestrator's configuration: the codec around the process secret
/// and the re-issuance cooldown. Collaborators are handed to each
/// operation, so one service value serves any store, mailer and hasher.
pub struct AuthService {
    jwt: JWT,
    duration_of_send_email: u64,
}

impl AuthService {
    /// The signing secret the service's codec uses.
    pub closed spec fn spec_secret(&self) -> Seq<char> {
        self.jwt.spec_secret()
    }

    /// The cooldown the throttle applies, in seconds.
    pub closed spec fn spec_cooldown(&self) -> u64 {
        self.duration_of_send_email
    }

    pub fn new(secret: String) -> (r: AuthService)
        ensures
            r.spec_secret() == secret@,
            r.spec_cooldown() == DURATION_OF_SEND_EMAIL,
    {
        AuthService { jwt: JWT::new(secret), duration_of_send_email: DURATION_OF_SEND_EMAIL }
    }

    /// Issues a fresh email-verification token, stores it as the single
    /// `SEND_EMAIL` row of the user, and mails the confirmation link.
    /// Once the row is stored, a mailer failure cannot fail the call.
    fn verification_email_notify<S: TUserRepositories, M: TEmail>(
        &self,
        store: &mut S,
        events: &AuthEvents<M>,
        user_id: &str,
        email: &str,
        now: u64,
    ) -> (r: Result<(), AuthError>)
        requires
            store_inv(old(store).view()),
            has_user_id(old(store).view(), user_id@),
            now + 86400 <= u64::MAX,
        ensures
            store_inv(final(store).view()),
            match r {
                Ok(_) => ({
                    let c = verify_token_claims(email@, now);
                    let t = token_of(c, self.spec_secret());
                    let i = id_idx(old(store).view(), user_id@);
                    &&& claims_of(t, self.spec_secret()) == Some(c)
                    &&& final(store).view() == old(store).view().update(
                        i,
                        upsert_token_a(old(store).view()[i], t, "SEND_EMAIL"@),
                    )
                }),
                Err(e) => e matches AuthError::Storage(_) && final(store).view() == old(
                    store,
                ).view(),
            },
    {
        let code = match self.jwt.verify_email(email, now) {
            Ok(t) => t,
            Err(e) => {
                return Err(e);
            },
        };
        match store.upsert_user_token(user_id, code.as_str(), "SEND_EMAIL") {
            Ok(_) => {},
            Err(m) => {
                return Err(AuthError::Storage(m));
            },
        }
        match events.on_send_email_verify(email, code.as_str()) {
            Ok(_) => Ok(()),
            Err(m) => Err(AuthError::Storage(m)),
        }
    }

    /// Signup: validate the input shape, refuse a known email, hash the
    /// password, insert the user unverified, issue and store its first
    /// verification token, and notify; the new user id comes back.
    pub fn create<S: TUserRepositories, M: TEmail, H: TPasswordHasher>(
        &self,
        store: &mut S,
        events: &AuthEvents<M>,
        hasher: &H,
        signup_data: CreateInputData,
        now: u64,
    ) -> (r: Result<String, AuthError>)
        requires
            store_inv(old(store).view()),
            now + 86400 <= u64::MAX,
        ensures
            store_inv(final(store).view()),
            ({
                let s0 = old(store).view();
                let d = signup_data;
                match r {
                    Ok(id) => {
                        &&& signup_errors(d).len() == 0
                        &&& !has_email(s0, d.email@)
                        &&& ({
                            let c = verify_token_claims(d.email@, now);
                            let t = token_of(c, self.spec_secret());
                            &&& claims_of(t, self.spec_secret()) == Some(c)
                            &&& signup_completed(s0, final(store).view(), d, *hasher, id@, t)
                        })
                    },
                    Err(AuthError::Validation(v)) => signup_errors(d).len() > 0 && field_pairs(v@)
                        == signup_errors(d) && final(store).view() == s0,
                    Err(AuthError::DuplicateEmail) => signup_errors(d).len() == 0 && has_email(
                        s0,
                        d.email@,
                    ) && final(store).view() == s0,
                    Err(AuthError::Storage(_)) => signup_errors(d).len() == 0 && !has_email(
                        s0,
                        d.email@,
                    ) && (final(store).view() == s0 || (exists|id: Seq<char>|
                        signup_inserted(s0, final(store).view(), d, *hasher, id))),
                    _ => false,
                }
            }),
    {
        match signup_data.validate() {
            Ok(_) => {},
            Err(e) => {
                return Err(e);
            },
        }
        if store.find_by_email(signup_data.email.as_str()).is_some() {
            proof {
                lemma_first_idx(old(store).view(), crate::store::email_pred(signup_data.email@));
            }
            return Err(AuthError::DuplicateEmail);
        }
        proof {
            lemma_first_idx(old(store).view(), crate::store::email_pred(signup_data.email@));
        }
        let hashed = match hasher.hash_pwd(signup_data.password.as_str()) {
            Ok(p) => p,
            Err(m) => {
                return Err(AuthError::Storage(m));
            },
        };
        let (password_alg, password_hash) = hashed;
        let user_id = match store.insert(
            signup_data.first_name.as_str(),
            signup_data.last_name.as_str(),
            signup_data.phone.as_ref(),
            signup_data.email.as_str(),
            password_hash.as_str(),
            password_alg.as_str(),
            signup_data.role.as_str(),
            false,
            true,
        ) {
            Ok(id) => id,
            Err(m) => {
                return Err(AuthError::Storage(m));
            },
        };
        let ghost s0 = old(store).view();
        let ghost s1 = store.view();
        let ghost ts = choose|ts: u64|
            s1 == s0.push(
                new_account(
                    user_id@,
                    signup_data.first_name@,
                    signup_data.last_name@,
                    signup_data.email@,
                    password_hash@,
                    password_alg@,
                    UserType::spec_from_str(signup_data.role@).unwrap(),
                    false,
                    ts,
                ),
            );
        proof {
            assert(signup_inserted(s0, s1, signup_data, *hasher, user_id@));
            assert(s1[s1.len() - 1].user.id == user_id@);
            lemma_first_idx_is(s1, id_pred(user_id@), s1.len() - 1);
            assert(has_user_id(s1, user_id@));
        }
        match self.verification_email_notify(
            store,
            events,
            user_id.as_str(),
            signup_data.email.as_str(),
            now,
        ) {
            Ok(_) => {},
            Err(e) => {
                proof {
                    assert(store.view() == s1);
                    assert(exists|id: Seq<char>|
                        signup_inserted(s0, store.view(), signup_data, *hasher, id));
                }
                return Err(e);
            },
        }
        proof {
            let c = verify_token_claims(signup_data.email@, now);
            let t = token_of(c, self.spec_secret());
            let a = new_account(
                user_id@,
                signup_data.first_name@,
                signup_data.last_name@,
                signup_data.email@,
                password_hash@,
                password_alg@,
                UserType::spec_from_str(signup_data.role@).unwrap(),
                false,
                ts,
            );
            assert(store.view() == s1.update(s1.len() - 1, upsert_token_a(a, t, "SEND_EMAIL"@)));
            assert(store.view() =~= s0.push(upsert_token_a(a, t, "SEND_EMAIL"@)));
            assert(hasher.pwd_matches(password_hash@, signup_data.password@));
            assert(signup_completed(s0, store.view(), signup_data, *hasher, user_id@, t));
        }
        let admins = store.find_by_type(&UserType::Admin);
        let mut emails: Vec<&str> = Vec::new();
        let mut i: usize = 0;
        while i < admins.len()
            decreases admins@.len() - i,
        {
            emails.push(admins[i].email.as_str());
            i += 1;
        }
        match events.on_create_user(signup_data.email.as_str(), emails) {
            Ok(_) => Ok(user_id),
            Err(m) => Err(AuthError::Storage(m)),
        }
    }

    /// Login: on a verified account with the right password, mint a
    /// seven-day login token, store it as the single active `WEB` row
    /// (superseding any prior session), and return it.
    pub fn login<S: TUserRepositories, H: TPasswordHasher>(
        &self,
        store: &mut S,
        hasher: &H,
        data: LoginInputData,
        now: u64,
    ) -> (r: Result<String, AuthError>)
        requires
            store_inv(old(store).view()),
            now + 7 * 86400 <= u64::MAX,
        ensures
            store_inv(final(store).view()),
            ({
                let s0 = old(store).view();
                let i = email_idx(s0, data.email@);
                match r {
                    Ok(t) => {
                        &&& login_errors(data).len() == 0
                        &&& i != -1
                        &&& s0[i].is_verified
                        &&& hasher.pwd_matches(s0[i].user.password_hash, data.password@)
                        &&& ({
                            let c = login_token_claims(s0[i].user, now);
                            &&& t@ == token_of(c, self.spec_secret())
                            &&& claims_of(t@, self.spec_secret()) == Some(c)
                            &&& final(store).view() == s0.update(
                                i,
                                upsert_token_a(s0[i], t@, "WEB"@),
                            )
                        })
                    },
                    Err(AuthError::Validation(v)) => login_errors(data).len() > 0 && field_pairs(
                        v@,
                    ) == login_errors(data) && final(store).view() == s0,
                    Err(AuthError::NotFound) => login_errors(data).len() == 0 && i == -1
                        && final(store).view() == s0,
                    Err(AuthError::EmailNotVerified) => login_errors(data).len() == 0 && i != -1
                        && !s0[i].is_verified && final(store).view() == s0,
                    Err(AuthError::InvalidCredentials) => login_errors(data).len() == 0 && i != -1
                        && s0[i].is_verified && !hasher.pwd_matches(
                        s0[i].user.password_hash,
                        data.password@,
                    ) && final(store).view() == s0,
                    Err(AuthError::Storage(_)) => login_errors(data).len() == 0 && i != -1
                        && s0[i].is_verified && hasher.pwd_matches(
                        s0[i].user.password_hash,
                        data.password@,
                    ) && final(store).view() == s0,
                    _ => false,
                }
            }),
    {
        match data.validate() {
            Ok(_) => {},
            Err(e) => {
                return Err(e);
            },
        }
        let found = match store.find_by_email(data.email.as_str()) {
            Some(p) => p,
            None => {
                return Err(AuthError::NotFound);
            },
        };
        let (user, user_email) = found;
        if !user_email.is_verified {
            return Err(AuthError::EmailNotVerified);
        }
        if !hasher.verify_pwd(user.password_hash.as_str(), data.password.as_str()) {
            return Err(AuthError::InvalidCredentials);
        }
        let access_token = match self.jwt.access(&user, now) {
            Ok(t) => t,
            Err(e) => {
                return Err(e);
            },
        };
        let ghost s0 = old(store).view();
        let ghost i = email_idx(s0, data.email@);
        proof {
            lemma_first_idx(s0, crate::store::email_pred(data.email@));
            crate::store::lemma_id_idx_self(s0, i);
            assert(has_user_id(s0, user.id@));
        }
        match store.upsert_user_token(user.id.as_str(), access_token.as_str(), "WEB") {
            Ok(_) => Ok(access_token),
            Err(m) => Err(AuthError::Storage(m)),
        }
    }

    /// Re-send of the verification email: only for a known, still
    /// unverified address, and only once the cooldown since the last
    /// `SEND_EMAIL` token has run out; then reissue and renotify.
    pub fn send_email_verification<S: TUserRepositories, M: TEmail>(
        &self,
        store: &mut S,
        events: &AuthEvents<M>,
        data: EmailInputData,
        now: u64,
    ) -> (r: Result<(), AuthError>)
        requires
            store_inv(old(store).view()),
            now + 86400 <= u64::MAX,
        ensures
            store_inv(final(store).view()),
            ({
                let s0 = old(store).view();
                let i = email_idx(s0, data.email@);
                let pre = email_errors(data).len() == 0 && i != -1 && !s0[i].is_verified;
                let thr = throttle_spec(
                    token_for(s0[i], "SEND_EMAIL"@),
                    self.spec_cooldown(),
                    now,
                    self.spec_secret(),
                );
                match r {
                    Ok(_) => pre && thr is Ok && ({
                        let c = verify_token_claims(data.email@, now);
                        let t = token_of(c, self.spec_secret());
                        &&& claims_of(t, self.spec_secret()) == Some(c)
                        &&& final(store).view() == s0.update(
                            i,
                            upsert_token_a(s0[i], t, "SEND_EMAIL"@),
                        )
                    }),
                    Err(AuthError::Validation(v)) => email_errors(data).len() > 0 && field_pairs(
                        v@,
                    ) == email_errors(data) && final(store).view() == s0,
                    Err(AuthError::NotFound) => email_errors(data).len() == 0 && i == -1
                        && final(store).view() == s0,
                    Err(AuthError::AlreadyVerified) => email_errors(data).len() == 0 && i != -1
                        && s0[i].is_verified && final(store).view() == s0,
                    Err(AuthError::RateLimited { minutes, seconds }) => pre && thr == Err::<
                        (),
                        AuthError,
                    >(AuthError::RateLimited { minutes, seconds }) && final(store).view() == s0,
                    Err(AuthError::ClockAnomaly) => pre && thr == Err::<(), AuthError>(
                        AuthError::ClockAnomaly,
                    ) && final(store).view() == s0,
                    Err(AuthError::Storage(_)) => pre && thr is Ok && final(store).view() == s0,
                    _ => false,
                }
            }),
    {
        match data.validate() {
            Ok(_) => {},
            Err(e) => {
                return Err(e);
            },
        }
        let found = match store.find_by_email(data.email.as_str()) {
            Some(p) => p,
            None => {
                return Err(AuthError::NotFound);
            },
        };
        let (user, user_email) = found;
        if user_email.is_verified {
            return Err(AuthError::AlreadyVerified);
        }
        let ghost s0 = old(store).view();
        let ghost i = email_idx(s0, data.email@);
        proof {
            lemma_first_idx(s0, crate::store::email_pred(data.email@));
            crate::store::lemma_id_idx_self(s0, i);
        }
        let existing = store.find_token_by(user.id.as_str(), "SEND_EMAIL");
        match check_can_send_email(
            &self.jwt,
            existing.as_ref(),
            self.duration_of_send_email,
            now,
        ) {
            Ok(_) => {},
            Err(e) => {
                return Err(e);
            },
        }
        proof {
            assert(has_user_id(s0, user.id@));
        }
        self.verification_email_notify(store, events, user.id.as_str(), data.email.as_str(), now)
    }

    /// Consume of an email-verification token: what is owed for a store
    /// `s` and a presented token — the index of the account to flip, or
    /// the one error. The token must parse as `VerifyEmail`, name a known
    /// unverified address, and be the exact stored `SEND_EMAIL` row: a
    /// superseded token is refused even while cryptographically valid.
    pub open spec fn email_verify_check(
        s: Seq<AccountView>,
        token: Seq<char>,
        now: u64,
        secret: Seq<char>,
    ) -> Result<int, AuthError> {
        match parse_spec(token, Some(ClaimType::VerifyEmail), now, secret) {
            Err(e) => Err(e),
            Ok(c) => {
                let i = email_idx(s, c.sub);
                if i == -1 {
                    Err(AuthError::NotFound)
                } else if s[i].is_verified {
                    Err(AuthError::AlreadyVerified)
                } else if token_for(s[i], "SEND_EMAIL"@) != Some(token) {
                    Err(AuthError::TokenExpiredOrRevoked)
                } else {
                    Ok(i)
                }
            },
        }
    }

    /// Email verification: parse the token for the `VerifyEmail` purpose,
    /// demand it be the exact stored `SEND_EMAIL` row of the subject
    /// address, then consume the row and flip the flag. The consume and
    /// the flip are two store steps; a failure between them leaves the
    /// committed step in place.
    pub fn email_verify<S: TUserRepositories, M: TEmail>(
        &self,
        store: &mut S,
        events: &AuthEvents<M>,
        token: &str,
        now: u64,
    ) -> (r: Result<(), AuthError>)
        requires
            store_inv(old(store).view()),
        ensures
            store_inv(final(store).view()),
            ({
                let s0 = old(store).view();
                match AuthService::email_verify_check(s0, token@, now, self.spec_secret()) {
                    Err(e) => r == Err::<(), AuthError>(e) && final(store).view() == s0,
                    Ok(i) => match r {
                        Ok(_) => final(store).view() == s0.update(
                            i,
                            set_verified_a(remove_tokens_a(s0[i], seq![token@]), true),
                        ),
                        Err(AuthError::Storage(_)) => final(store).view() == s0
                            || final(store).view() == s0.update(
                            i,
                            remove_tokens_a(s0[i], seq![token@]),
                        ),
                        _ => false,
                    },
                }
            }),
    {
        let claims = match self.jwt.parse(token, Some(ClaimType::VerifyEmail), now) {
            Ok(c) => c,
            Err(e) => {
                return Err(e);
            },
        };
        let found = match store.find_by_email(claims.sub.as_str()) {
            Some(p) => p,
            None => {
                return Err(AuthError::NotFound);
            },
        };
        let (user, user_email) = found;
        if user_email.is_verified {
            return Err(AuthError::AlreadyVerified);
        }
        let ghost s0 = old(store).view();
        let ghost i = email_idx(s0, claims.sub@);
        proof {
            lemma_first_idx(s0, crate::store::email_pred(claims.sub@));
            crate::store::lemma_id_idx_self(s0, i);
        }
        let stored = store.find_token_by(user.id.as_str(), "SEND_EMAIL");
        let matches_stored = match &stored {
            Some(t) => crate::strutil::str_eq(t.as_str(), token),
            None => false,
        };
        if !matches_stored {
            return Err(AuthError::TokenExpiredOrRevoked);
        }
        let mut del: Vec<String> = Vec::new();
        del.push(token.to_owned());
        proof {
            assert(del@.map_values(|t: String| t@) =~= seq![token@]);
        }
        match store.remove_user_tokens(user.id.as_str(), &del) {
            Ok(_) => {},
            Err(m) => {
                return Err(AuthError::Storage(m));
            },
        }
        let ghost s1 = store.view();
        proof {
            assert(s1 == s0.update(i, remove_tokens_a(s0[i], seq![token@])));
            assert(s1[i].user.email == s0[i].user.email);
            crate::store::lemma_email_idx_self(s1, i);
        }
        match store.update_verify_email(claims.sub.as_str(), true) {
            Ok(_) => {},
            Err(m) => {
                return Err(AuthError::Storage(m));
            },
        }
        proof {
            assert(store.view() =~= s0.update(
                i,
                set_verified_a(remove_tokens_a(s0[i], seq![token@]), true),
            ));
        }
        let _res = events.on_email_verified(&user);
        Ok(())
    }

    /// Forgot password: only for a known, verified address, and only once
    /// the cooldown since the last `FORGOT_PASSWORD` token ran out; then
    /// issue a reset token keyed by the user id, store it as the single
    /// `FORGOT_PASSWORD` row, and mail the reset link.
    pub fn forgot_password<S: TUserRepositories, M: TEmail>(
        &self,
        store: &mut S,
        events: &AuthEvents<M>,
        data: EmailInputData,
        now: u64,
    ) -> (r: Result<(), AuthError>)
        requires
            store_inv(old(store).view()),
            now + 86400 <= u64::MAX,
        ensures
            store_inv(final(store).view()),
            ({
                let s0 = old(store).view();
                let i = email_idx(s0, data.email@);
                let pre = email_errors(data).len() == 0 && i != -1 && s0[i].is_verified;
                let thr = throttle_spec(
                    token_for(s0[i], "FORGOT_PASSWORD"@),
                    self.spec_cooldown(),
                    now,
                    self.spec_secret(),
                );
                match r {
                    Ok(_) => pre && thr is Ok && ({
                        let c = reset_token_claims(s0[i].user, now);
                        let t = token_of(c, self.spec_secret());
                        &&& claims_of(t, self.spec_secret()) == Some(c)
                        &&& final(store).view() == s0.update(
                            i,
                            upsert_token_a(s0[i], t, "FORGOT_PASSWORD"@),
                        )
                    }),
                    Err(AuthError::Validation(v)) => email_errors(data).len() > 0 && field_pairs(
                        v@,
                    ) == email_errors(data) && final(store).view() == s0,
                    Err(AuthError::NotFound) => email_errors(data).len() == 0 && i == -1
                        && final(store).view() == s0,
                    Err(AuthError::EmailNotVerified) => email_errors(data).len() == 0 && i != -1
                        && !s0[i].is_verified && final(store).view() == s0,
                    Err(AuthError::RateLimited { minutes, seconds }) => pre && thr == Err::<
                        (),
                        AuthError,
                    >(AuthError::RateLimited { minutes, seconds }) && final(store).view() == s0,
                    Err(AuthError::ClockAnomaly) => pre && thr == Err::<(), AuthError>(
                        AuthError::ClockAnomaly,
                    ) && final(store).view() == s0,
                    Err(AuthError::Storage(_)) => pre && thr is Ok && final(store).view() == s0,
                    _ => false,
                }
            }),
    {
        match data.validate() {
            Ok(_) => {},
            Err(e) => {
                return Err(e);
            },
        }
        let found = match store.find_by_email(data.email.as_str()) {
            Some(p) => p,
            None => {
                return Err(AuthError::NotFound);
            },
        };
        let (user, user_email) = found;
        if !user_email.is_verified {
            return Err(AuthError::EmailNotVerified);
        }
        let ghost s0 = old(store).view();
        let ghost i = email_idx(s0, data.email@);
        proof {
            lemma_first_idx(s0, crate::store::email_pred(data.email@));
            crate::store::lemma_id_idx_self(s0, i);
        }
        let existing = store.find_token_by(user.id.as_str(), "FORGOT_PASSWORD");
        match check_can_send_email(
            &self.jwt,
            existing.as_ref(),
            self.duration_of_send_email,
            now,
        ) {
            Ok(_) => {},
            Err(e) => {
                return Err(e);
            },
        }
        let code = match self.jwt.forgot_password(&user, now) {
            Ok(t) => t,
            Err(e) => {
                return Err(e);
            },
        };
        proof {
            assert(has_user_id(s0, user.id@));
        }
        match store.upsert_user_token(user.id.as_str(), code.as_str(), "FORGOT_PASSWORD") {
            Ok(_) => {},
            Err(m) => {
                return Err(AuthError::Storage(m));
            },
        }
        match events.on_forgot_password(data.email.as_str(), code.as_str()) {
            Ok(_) => Ok(()),
            Err(m) => Err(AuthError::Storage(m)),
        }
    }

    /// Consume of a password-reset token: the index of the account whose
    /// password changes, or the one error owed. The token must parse as
    /// `ForgotPassword`, name a known user id, and be the exact stored
    /// `FORGOT_PASSWORD` row; a superseded token is refused.
    pub open spec fn reset_check(
        s: Seq<AccountView>,
        token: Seq<char>,
        now: u64,
        secret: Seq<char>,
    ) -> Result<int, AuthError> {
        match parse_spec(token, Some(ClaimType::ForgotPassword), now, secret) {
            Err(e) => Err(e),
            Ok(c) => {
                let i = id_idx(s, c.sub);
                if i == -1 {
                    Err(AuthError::NotFound)
                } else if token_for(s[i], "FORGOT_PASSWORD"@) != Some(token) {
                    Err(AuthError::TokenExpiredOrRevoked)
                } else {
                    Ok(i)
                }
            },
        }
    }

    /// Password reset: validate the new password, demand the exact stored
    /// `FORGOT_PASSWORD` token of the subject user, then consume the row
    /// and store the new hash. The consume and the write are two store
    /// steps; a failure between them leaves the committed step in place.
    pub fn reset_password<S: TUserRepositories, H: TPasswordHasher>(
        &self,
        store: &mut S,
        hasher: &H,
        token: &str,
        data: PasswordInputData,
        now: u64,
    ) -> (r: Result<(), AuthError>)
        requires
            store_inv(old(store).view()),
        ensures
            store_inv(final(store).view()),
            ({
                let s0 = old(store).view();
                if password_errors(data).len() > 0 {
                    r matches Err(e) && (e matches AuthError::Validation(v) && field_pairs(v@)
                        == password_errors(data)) && final(store).view() == s0
                } else {
                    match AuthService::reset_check(s0, token@, now, self.spec_secret()) {
                        Err(e) => r == Err::<(), AuthError>(e) && final(store).view() == s0,
                        Ok(i) => match r {
                            Ok(_) => reset_completed(
                                s0,
                                final(store).view(),
                                i,
                                token@,
                                data,
                                *hasher,
                            ),
                            Err(AuthError::Storage(_)) => final(store).view() == s0
                                || final(store).view() == s0.update(
                                i,
                                remove_tokens_a(s0[i], seq![token@]),
                            ),
                            _ => false,
                        },
                    }
                }
            }),
    {
        match data.validate() {
            Ok(_) => {},
            Err(e) => {
                return Err(e);
            },
        }
        let claims = match self.jwt.parse(token, Some(ClaimType::ForgotPassword), now) {
            Ok(c) => c,
            Err(e) => {
                return Err(e);
            },
        };
        let user = match store.find_by_id(claims.sub.as_str()) {
            Some(u) => u,
            None => {
                return Err(AuthError::NotFound);
            },
        };
        let ghost s0 = old(store).view();
        let ghost i = id_idx(s0, claims.sub@);
        proof {
            lemma_first_idx(s0, id_pred(claims.sub@));
            crate::store::lemma_id_idx_self(s0, i);
        }
        let stored = store.find_token_by(user.id.as_str(), "FORGOT_PASSWORD");
        let matches_stored = match &stored {
            Some(t) => crate::strutil::str_eq(t.as_str(), token),
            None => false,
        };
        if !matches_stored {
            return Err(AuthError::TokenExpiredOrRevoked);
        }
        let hashed = match hasher.hash_pwd(data.password.as_str()) {
            Ok(p) => p,
            Err(m) => {
                return Err(AuthError::Storage(m));
            },
        };
        let (alg, hash) = hashed;
        let mut del: Vec<String> = Vec::new();
        del.push(token.to_owned());
        proof {
            assert(del@.map_values(|t: String| t@) =~= seq![token@]);
        }
        match store.remove_user_tokens(user.id.as_str(), &del) {
            Ok(_) => {},
            Err(m) => {
                return Err(AuthError::Storage(m));
            },
        }
        let ghost s1 = store.view();
        proof {
            assert(s1 == s0.update(i, remove_tokens_a(s0[i], seq![token@])));
            assert(s1[i].user.id == s0[i].user.id);
            crate::store::lemma_id_idx_self(s1, i);
        }
        match store.update_password(user.id.as_str(), alg.as_str(), hash.as_str()) {
            Ok(_) => {},
            Err(m) => {
                return Err(AuthError::Storage(m));
            },
        }
        proof {
            assert(store.view() =~= s0.update(
                i,
                set_password_a(remove_tokens_a(s0[i], seq![token@]), alg@, hash@),
            ));
            assert(reset_completed(s0, store.view(), i, token@, data, *hasher));
        }
        Ok(())
    }

    /// Revocation: any validly signed, unexpired token names its user;
    /// the matching stored rows of that user are deleted. Revoking a
    /// token that is no longer stored succeeds and changes nothing.
    pub fn revoke_token<S: TUserRepositories>(&self, store: &mut S, token: &str, now: u64) -> (r:
        Result<(), AuthError>)
        requires
            store_inv(old(store).view()),
        ensures
            store_inv(final(store).view()),
            ({
                let s0 = old(store).view();
                match parse_spec(token@, None, now, self.spec_secret()) {
                    Err(e) => r == Err::<(), AuthError>(e) && final(store).view() == s0,
                    Ok(c) => match r {
                        Ok(_) => ({
                            let i = id_idx(s0, c.sub);
                            if i == -1 {
                                final(store).view() == s0
                            } else {
                                final(store).view() == s0.update(
                                    i,
                                    remove_tokens_a(s0[i], seq![token@]),
                                )
                            }
                        }),
                        Err(AuthError::Storage(_)) => final(store).view() == s0,
                        _ => false,
                    },
                }
            }),
    {
        let claims = match self.jwt.parse(token, None, now) {
            Ok(c) => c,
            Err(e) => {
                return Err(e);
            },
        };
        let mut del: Vec<String> = Vec::new();
        del.push(token.to_owned());
        proof {
            assert(del@.map_values(|t: String| t@) =~= seq![token@]);
        }
        match store.remove_user_tokens(claims.sub.as_str(), &del) {
            Ok(_) => Ok(()),
            Err(m) => Err(AuthError::Storage(m)),
        }
    }
}

/// Single-active-token rule, verification side: once a new `SEND_EMAIL`
/// token is stored for the account (as every reissue stores one), any
/// other token string — the superseded one in particular — is refused by
/// email verification with `TokenExpiredOrRevoked`, even while its
/// signature verifies and its expiry has not passed.
pub proof fn lemma_reissue_invalidates_email_verify(
    s: Seq<AccountView>,
    i: int,
    t_old: Seq<char>,
    t_new: Seq<char>,
    c_old: ClaimsView,
    now: u64,
    secret: Seq<char>,
)
    requires
        store_inv(s),
        0 <= i < s.len(),
        claims_of(t_old, secret) == Some(c_old),
        c_old.claim_type == ClaimType::VerifyEmail.spec_str(),
        now <= c_old.exp,
        c_old.sub == s[i].user.email,
        !s[i].is_verified,
        token_for(s[i], "SEND_EMAIL"@) == Some(t_new),
        t_old != t_new,
    ensures
        AuthService::email_verify_check(s, t_old, now, secret) == Err::<int, AuthError>(
            AuthError::TokenExpiredOrRevoked,
        ),
{
    crate::store::lemma_email_idx_self(s, i);
}

/// Single-active-token rule, from the store transition itself: after the
/// store step that a reissue performs — upserting a fresh `SEND_EMAIL`
/// token carrying a different issue time — verification with the old
/// token fails with `TokenExpiredOrRevoked`. The old and new tokens are
/// distinct strings because they decode to distinct claims.
pub proof fn lemma_reissue_supersedes(
    s: Seq<AccountView>,
    i: int,
    t_old: Seq<char>,
    t_new: Seq<char>,
    c_old: ClaimsView,
    c_new: ClaimsView,
    now: u64,
    secret: Seq<char>,
)
    requires
        store_inv(s),
        0 <= i < s.len(),
        claims_of(t_old, secret) == Some(c_old),
        claims_of(t_new, secret) == Some(c_new),
        c_old.claim_type == ClaimType::VerifyEmail.spec_str(),
        now <= c_old.exp,
        c_old.sub == s[i].user.email,
        !s[i].is_verified,
        c_old.iat != c_new.iat,
    ensures
        ({
            let s1 = s.update(i, upsert_token_a(s[i], t_new, "SEND_EMAIL"@));
            AuthService::email_verify_check(s1, t_old, now, secret) == Err::<int, AuthError>(
                AuthError::TokenExpiredOrRevoked,
            )
        }),
{
    let s1 = s.update(i, upsert_token_a(s[i], t_new, "SEND_EMAIL"@));
    crate::jwt::lemma_distinct_claims_distinct_tokens(t_old, t_new, c_old, c_new, secret);
    crate::store::lemma_upsert_tokens_wf(s[i], t_new, "SEND_EMAIL"@);
    assert forall|k: int| 0 <= k < s1.len() implies crate::store::tokens_wf(
        #[trigger] s1[k].user.tokens,
    ) by {
        if k != i {
            assert(s1[k] == s[k]);
        }
    }
    assert(store_inv(s1));
    crate::store::lemma_token_for_upsert(s[i], t_new, "SEND_EMAIL"@);
    lemma_reissue_invalidates_email_verify(s1, i, t_old, t_new, c_old, now, secret);
}

/// Single-active-token rule, reset side: once a new `FORGOT_PASSWORD`
/// token is stored for the account, any other token string is refused by
/// password reset with `TokenExpiredOrRevoked`, even while its signature
/// verifies and its expiry has not passed.
pub proof fn lemma_reissue_invalidates_reset(
    s: Seq<AccountView>,
    i: int,
    t_old: Seq<char>,
    t_new: Seq<char>,
    c_old: ClaimsView,
    now: u64,
    secret: Seq<char>,
)
    requires
        store_inv(s),
        0 <= i < s.len(),
        claims_of(t_old, secret) == Some(c_old),
        c_old.claim_type == ClaimType::ForgotPassword.spec_str(),
        now <= c_old.exp,
        c_old.sub == s[i].user.id,
        token_for(s[i], "FORGOT_PASSWORD"@) == Some(t_new),
        t_old != t_new,
    ensures
        AuthService::reset_check(s, t_old, now, secret) == Err::<int, AuthError>(
            AuthError::TokenExpiredOrRevoked,
        ),
{
    crate::store::lemma_id_idx_self(s, i);
}

/// The password of the account at `i` was replaced by a hash of the new
/// password, and the consumed reset token is gone; the algorithm tag and
/// the hash are the hasher's choice, the relation to the password is not.
pub open spec fn reset_completed<H: TPasswordHasher>(
    s0: Seq<AccountView>,
    s1: Seq<AccountView>,
    i: int,
    token: Seq<char>,
    d: PasswordInputData,
    hasher: H,
) -> bool {
    exists|alg: Seq<char>, h: Seq<char>|
        hasher.pwd_matches(h, d.password@) && s1 == s0.update(
            i,
            set_password_a(remove_tokens_a(s0[i], seq![token]), alg, h),
        )
}

} // verus!
