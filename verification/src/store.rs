//! The credential store: its mathematical model and the contract every
//! implementation answers to. The store is the sole holder of user rows
//! and of the single active token row per `(user, purpose)`.

use vstd::prelude::*;
use crate::user::{TokenView, User, UserEmail, UserType, UserView};

verus! {

/// One stored account: the user row (with its token rows) and the
/// verification flag of its primary email.
pub struct AccountView {
    pub user: UserView,
    pub is_verified: bool,
}

/// Index of the first element satisfying `p`, or `-1` if none does.
pub open spec fn first_idx<A>(s: Seq<A>, p: spec_fn(A) -> bool) -> int
    decreases s.len(),
{
    if s.len() == 0 {
        -1
    } else if p(s[0]) {
        0
    } else if first_idx(s.drop_first(), p) == -1 {
        -1
    } else {
        first_idx(s.drop_first(), p) + 1
    }
}

/// What `first_idx` returns: the least witness, or `-1` exactly when
/// there is none.
pub proof fn lemma_first_idx<A>(s: Seq<A>, p: spec_fn(A) -> bool)
    ensures
        first_idx(s, p) == -1 ==> (forall|i: int| 0 <= i < s.len() ==> !p(s[i])),
        first_idx(s, p) != -1 ==> 0 <= first_idx(s, p) < s.len() && p(s[first_idx(s, p)]) && (
        forall|i: int| 0 <= i < first_idx(s, p) ==> !p(s[i])),
    decreases s.len(),
{
    if s.len() > 0 && !p(s[0]) {
        let rest = s.drop_first();
        lemma_first_idx(rest, p);
        if first_idx(s, p) == -1 {
            assert forall|i: int| 0 <= i < s.len() implies !p(s[i]) by {
                if i > 0 {
                    assert(rest[i - 1] == s[i]);
                }
            }
        } else {
            assert(first_idx(s, p) == first_idx(rest, p) + 1);
            assert(rest[first_idx(rest, p)] == s[first_idx(s, p)]);
            assert forall|i: int| 0 <= i < first_idx(s, p) implies !p(s[i]) by {
                if i > 0 {
                    assert(rest[i - 1] == s[i]);
                }
            }
        }
    }
}

/// A scan that saw no witness below `i`, and one at `i` if `i` is in
/// range, has found exactly what `first_idx` names.
pub proof fn lemma_first_idx_is<A>(s: Seq<A>, p: spec_fn(A) -> bool, i: int)
    requires
        0 <= i <= s.len(),
        forall|j: int| 0 <= j < i ==> !p(s[j]),
        i < s.len() ==> p(s[i]),
    ensures
        i < s.len() ==> first_idx(s, p) == i,
        i == s.len() ==> first_idx(s, p) == -1,
    decreases s.len(),
{
    if s.len() > 0 && !p(s[0]) {
        lemma_first_idx_is(s.drop_first(), p, i - 1);
        assert(forall|j: int| 0 <= j < s.drop_first().len() ==> s.drop_first()[j] == s[j + 1]);
    }
}

/// Holding of an account id, as a predicate value.
pub open spec fn id_pred(id: Seq<char>) -> spec_fn(AccountView) -> bool {
    |a: AccountView| a.user.id == id
}

/// Holding of a primary email, as a predicate value.
pub open spec fn email_pred(email: Seq<char>) -> spec_fn(AccountView) -> bool {
    |a: AccountView| a.user.email == email
}

/// Holding of a token purpose tag, as a predicate value.
pub open spec fn purpose_pred(used_for: Seq<char>) -> spec_fn(TokenView) -> bool {
    |t: TokenView| t.used_for == used_for
}

/// Keeping a token row whose string is not listed, as a predicate value.
pub open spec fn keep_pred(tokens: Seq<Seq<char>>) -> spec_fn(TokenView) -> bool {
    |t: TokenView| !tokens.contains(t.token)
}

/// Having a role, as a predicate value.
pub open spec fn type_pred(t: UserType) -> spec_fn(AccountView) -> bool {
    |a: AccountView| a.user.u_type == t
}

/// Index of the account with this id, or `-1`.
pub open spec fn id_idx(s: Seq<AccountView>, id: Seq<char>) -> int {
    first_idx(s, id_pred(id))
}

/// Index of the account with this primary email, or `-1`.
pub open spec fn email_idx(s: Seq<AccountView>, email: Seq<char>) -> int {
    first_idx(s, email_pred(email))
}

/// Whether some account carries this id.
pub open spec fn has_user_id(s: Seq<AccountView>, id: Seq<char>) -> bool {
    exists|i: int| 0 <= i < s.len() && (#[trigger] s[i]).user.id == id
}

/// Whether some account carries this primary email.
pub open spec fn has_email(s: Seq<AccountView>, email: Seq<char>) -> bool {
    exists|i: int| 0 <= i < s.len() && (#[trigger] s[i]).user.email == email
}

/// Index of the token row with this purpose tag, or `-1`.
pub open spec fn token_idx(ts: Seq<TokenView>, used_for: Seq<char>) -> int {
    first_idx(ts, purpose_pred(used_for))
}

/// The token string an account stores for a purpose, if any.
pub open spec fn token_for(a: AccountView, used_for: Seq<char>) -> Option<Seq<char>> {
    let i = token_idx(a.user.tokens, used_for);
    if i == -1 {
        None
    } else {
        Some(a.user.tokens[i].token)
    }
}

/// The elements of `s` satisfying `p`, in order.
pub open spec fn filter_front<A>(s: Seq<A>, p: spec_fn(A) -> bool) -> Seq<A>
    decreases s.len(),
{
    if s.len() == 0 {
        Seq::empty()
    } else if p(s[0]) {
        seq![s[0]] + filter_front(s.drop_first(), p)
    } else {
        filter_front(s.drop_first(), p)
    }
}

/// Under unique ids, the id of the account at `i` indexes back to `i`.
pub proof fn lemma_id_idx_self(s: Seq<AccountView>, i: int)
    requires
        store_inv(s),
        0 <= i < s.len(),
    ensures
        id_idx(s, s[i].user.id) == i,
{
    assert forall|j: int| 0 <= j < i implies !(id_pred(s[i].user.id)(s[j])) by {
        assert(s[j].user.id != s[i].user.id);
    }
    lemma_first_idx_is(s, id_pred(s[i].user.id), i);
}

/// Under unique emails, the email of the account at `i` indexes back to `i`.
pub proof fn lemma_email_idx_self(s: Seq<AccountView>, i: int)
    requires
        store_inv(s),
        0 <= i < s.len(),
    ensures
        email_idx(s, s[i].user.email) == i,
{
    assert forall|j: int| 0 <= j < i implies !(email_pred(s[i].user.email)(s[j])) by {
        assert(s[j].user.email != s[i].user.email);
    }
    lemma_first_idx_is(s, email_pred(s[i].user.email), i);
}

/// The account after storing `token` for `used_for`: the single row of
/// that purpose is overwritten if present, appended otherwise. Every
/// other row, and every other field, is untouched.
pub open spec fn upsert_token_a(a: AccountView, token: Seq<char>, used_for: Seq<char>) -> AccountView {
    let ts = a.user.tokens;
    let i = token_idx(ts, used_for);
    let row = TokenView { token: token, used_for: used_for };
    let nts = if i == -1 {
        ts.push(row)
    } else {
        ts.update(i, row)
    };
    AccountView { user: UserView { tokens: nts, ..a.user }, ..a }
}

/// An upsert keeps the one-row-per-purpose shape.
pub proof fn lemma_upsert_tokens_wf(a: AccountView, token: Seq<char>, used_for: Seq<char>)
    requires
        tokens_wf(a.user.tokens),
    ensures
        tokens_wf(upsert_token_a(a, token, used_for).user.tokens),
{
    lemma_first_idx(a.user.tokens, purpose_pred(used_for));
}

/// After an upsert, the stored token of that purpose is the new string,
/// and every other purpose keeps its row.
pub proof fn lemma_token_for_upsert(a: AccountView, token: Seq<char>, used_for: Seq<char>)
    requires
        tokens_wf(a.user.tokens),
    ensures
        token_for(upsert_token_a(a, token, used_for), used_for) == Some(token),
        forall|p: Seq<char>|
            p != used_for ==> #[trigger] token_for(upsert_token_a(a, token, used_for), p)
                == token_for(a, p),
{
    let ts = a.user.tokens;
    let nts = upsert_token_a(a, token, used_for).user.tokens;
    let i = token_idx(ts, used_for);
    lemma_first_idx(ts, purpose_pred(used_for));
    if i == -1 {
        lemma_first_idx_is(nts, purpose_pred(used_for), ts.len() as int);
    } else {
        lemma_first_idx_is(nts, purpose_pred(used_for), i);
    }
    assert forall|p: Seq<char>| p != used_for implies #[trigger] token_for(
        upsert_token_a(a, token, used_for),
        p,
    ) == token_for(a, p) by {
        let j = token_idx(ts, p);
        lemma_first_idx(ts, purpose_pred(p));
        if j == -1 {
            lemma_first_idx_is(nts, purpose_pred(p), nts.len() as int);
        } else {
            assert(ts[j].used_for == p);
            assert(nts[j] == ts[j]);
            lemma_first_idx_is(nts, purpose_pred(p), j);
        }
    }
}

/// The account after deleting every token row whose string is listed.
pub open spec fn remove_tokens_a(a: AccountView, tokens: Seq<Seq<char>>) -> AccountView {
    AccountView {
        user: UserView { tokens: filter_front(a.user.tokens, keep_pred(tokens)), ..a.user },
        ..a
    }
}

/// The account after a password change.
pub open spec fn set_password_a(a: AccountView, alg: Seq<char>, hash: Seq<char>) -> AccountView {
    AccountView {
        user: UserView { password_alg: alg, password_hash: hash, ..a.user },
        ..a
    }
}

/// The account after flipping the primary email's verification flag.
pub open spec fn set_verified_a(a: AccountView, v: bool) -> AccountView {
    AccountView { is_verified: v, ..a }
}

/// A freshly inserted account: no token rows yet.
pub open spec fn new_account(
    id: Seq<char>,
    first_name: Seq<char>,
    last_name: Seq<char>,
    email: Seq<char>,
    p_hash: Seq<char>,
    p_alg: Seq<char>,
    u_type: UserType,
    is_verified: bool,
    created_at: u64,
) -> AccountView {
    AccountView {
        user: UserView {
            id: id,
            email: email,
            first_name: first_name,
            last_name: last_name,
            u_type: u_type,
            password_alg: p_alg,
            password_hash: p_hash,
            created_at: created_at,
            tokens: Seq::empty(),
        },
        is_verified: is_verified,
    }
}

/// At most one token row per purpose within one account.
pub open spec fn tokens_wf(ts: Seq<TokenView>) -> bool {
    forall|i: int, j: int| 0 <= i < j < ts.len() ==> ts[i].used_for != ts[j].used_for
}

/// The store invariant: ids unique, primary emails unique, and at most
/// one token row per `(user, purpose)`.
pub open spec fn store_inv(s: Seq<AccountView>) -> bool {
    &&& forall|i: int, j: int| 0 <= i < j < s.len() ==> s[i].user.id != s[j].user.id
    &&& forall|i: int, j: int| 0 <= i < j < s.len() ==> s[i].user.email != s[j].user.email
    &&& forall|i: int| 0 <= i < s.len() ==> tokens_wf(#[trigger] s[i].user.tokens)
}

/// The users of one role, in store order.
pub open spec fn users_of_type(s: Seq<AccountView>, t: UserType) -> Seq<UserView> {
    filter_front(s, type_pred(t)).map_values(|a: AccountView| a.user)
}

/// The email record an account presents for its primary address.
pub open spec fn email_rec_of(a: AccountView) -> crate::user::UserEmailView {
    crate::user::UserEmailView { is_primary: true, is_verified: a.is_verified, email: a.user.email }
}

/// The credential store contract. One row per user, at most one token row
/// per `(user, purpose)`; a failed mutation leaves the store unchanged,
/// as each statement is atomic.
pub trait TUserRepositories {
    /// The stored accounts, as the contracts speak of them. An
    /// implementation that leaves this at its default models the empty
    /// store and so promises nothing useful; verified implementations
    /// override it.
    open spec fn view(&self) -> Seq<AccountView> {
        Seq::empty()
    }

    /// Inserts a fresh user with its primary email; the store picks the
    /// id and the creation time.
    fn insert(
        &mut self,
        first_name: &str,
        last_name: &str,
        phone: Option<&String>,
        email: &str,
        p_hash: &str,
        p_alg: &str,
        u_type: &str,
        is_verify: bool,
        is_primary: bool,
    ) -> (r: Result<String, String>)
        requires
            store_inv(old(self).view()),
            UserType::spec_from_str(u_type@) is Some,
            !has_email(old(self).view(), email@),
        ensures
            store_inv(final(self).view()),
            match r {
                Ok(id) => !has_user_id(old(self).view(), id@) && (exists|ts: u64|
                    final(self).view() == old(self).view().push(
                        new_account(
                            id@,
                            first_name@,
                            last_name@,
                            email@,
                            p_hash@,
                            p_alg@,
                            UserType::spec_from_str(u_type@).unwrap(),
                            is_verify,
                            ts,
                        ),
                    )),
                Err(_) => final(self).view() == old(self).view(),
            },
    ;

    /// Looks an account up by primary email.
    fn find_by_email(&self, email: &str) -> (r: Option<(User, UserEmail)>)
        ensures
            match r {
                Some(p) => ({
                    let i = email_idx(self.view(), email@);
                    &&& i != -1
                    &&& p.0@ == self.view()[i].user
                    &&& p.1@ == email_rec_of(self.view()[i])
                }),
                None => email_idx(self.view(), email@) == -1,
            },
    ;

    /// Looks an account up by id.
    fn find_by_id(&self, id: &str) -> (r: Option<User>)
        ensures
            match r {
                Some(u) => ({
                    let i = id_idx(self.view(), id@);
                    &&& i != -1
                    &&& u@ == self.view()[i].user
                }),
                None => id_idx(self.view(), id@) == -1,
            },
    ;

    /// All users of one role, in store order.
    fn find_by_type(&self, u_type: &UserType) -> (r: Vec<User>)
        ensures
            r@.map_values(|u: User| u@) == users_of_type(self.view(), *u_type),
    ;

    /// The token string stored for `(user, purpose)`, if any.
    fn find_token_by(&self, user_id: &str, used_for: &str) -> (r: Option<String>)
        ensures
            match r {
                Some(t) => ({
                    let i = id_idx(self.view(), user_id@);
                    &&& i != -1
                    &&& token_for(self.view()[i], used_for@) == Some(t@)
                }),
                None => ({
                    let i = id_idx(self.view(), user_id@);
                    i == -1 || token_for(self.view()[i], used_for@) is None
                }),
            },
    ;

    /// Stores `token` as the single active row for `(user_id, used_for)`,
    /// superseding any prior row of that purpose, atomically.
    fn upsert_user_token(&mut self, user_id: &str, token: &str, used_for: &str) -> (r: Result<
        bool,
        String,
    >)
        requires
            store_inv(old(self).view()),
            has_user_id(old(self).view(), user_id@),
        ensures
            store_inv(final(self).view()),
            match r {
                Ok(b) => b && ({
                    let i = id_idx(old(self).view(), user_id@);
                    final(self).view() == old(self).view().update(
                        i,
                        upsert_token_a(old(self).view()[i], token@, used_for@),
                    )
                }),
                Err(_) => final(self).view() == old(self).view(),
            },
    ;

    /// Deletes the rows of this user whose token string is listed; a user
    /// or token that is absent is no error.
    fn remove_user_tokens(&mut self, user_id: &str, tokens: &Vec<String>) -> (r: Result<(), String>)
        requires
            store_inv(old(self).view()),
        ensures
            store_inv(final(self).view()),
            match r {
                Ok(_) => ({
                    let i = id_idx(old(self).view(), user_id@);
                    if i == -1 {
                        final(self).view() == old(self).view()
                    } else {
                        final(self).view() == old(self).view().update(
                            i,
                            remove_tokens_a(
                                old(self).view()[i],
                                tokens@.map_values(|t: String| t@),
                            ),
                        )
                    }
                }),
                Err(_) => final(self).view() == old(self).view(),
            },
    ;

    /// Replaces the password hash of a user; reports whether a row changed.
    fn update_password(&mut self, user_id: &str, alg: &str, hash: &str) -> (r: Result<bool, String>)
        requires
            store_inv(old(self).view()),
        ensures
            store_inv(final(self).view()),
            match r {
                Ok(b) => ({
                    let i = id_idx(old(self).view(), user_id@);
                    if i == -1 {
                        !b && final(self).view() == old(self).view()
                    } else {
                        b && final(self).view() == old(self).view().update(
                            i,
                            set_password_a(old(self).view()[i], alg@, hash@),
                        )
                    }
                }),
                Err(_) => final(self).view() == old(self).view(),
            },
    ;

    /// Sets the verification flag of the account with this primary email;
    /// reports whether a row changed.
    fn update_verify_email(&mut self, email: &str, is_verify: bool) -> (r: Result<bool, String>)
        requires
            store_inv(old(self).view()),
        ensures
            store_inv(final(self).view()),
            match r {
                Ok(b) => ({
                    let i = email_idx(old(self).view(), email@);
                    if i == -1 {
                        !b && final(self).view() == old(self).view()
                    } else {
                        b && final(self).view() == old(self).view().update(
                            i,
                            set_verified_a(old(self).view()[i], is_verify),
                        )
                    }
                }),
                Err(_) => final(self).view() == old(self).view(),
            },
    ;
}

} // verus!
