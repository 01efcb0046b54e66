//! A verified in-memory credential store: the reference implementation of
//! the store contract, used by tests and by any deployment that does not
//! bring a database.

use vstd::prelude::*;
use crate::store::{
    email_idx, email_pred, has_email, id_idx, id_pred, lemma_first_idx, lemma_first_idx_is,
    new_account, store_inv, AccountView, TUserRepositories,
};
use crate::strutil::{str_eq, u64_to_string};
use crate::user::{tokens_view, User, UserEmail, UserToken, UserType};

verus! {

/// One stored account: the user row and its email verification flag.
pub struct MemUser {
    pub user: User,
    pub is_verified: bool,
}

/// The in-memory store: a vector of accounts and a counter the next
/// fresh id is read from.
pub struct MemoryUserRepository {
    accounts: Vec<MemUser>,
    next_id: u64,
}

impl MemoryUserRepository {
    pub fn new() -> (r: MemoryUserRepository)
        ensures
            r.view() == Seq::<AccountView>::empty(),
            store_inv(r.view()),
    {
        let r = MemoryUserRepository { accounts: Vec::new(), next_id: 0 };
        proof {
            assert(r.view() =~= Seq::<AccountView>::empty());
        }
        r
    }

    /// Position of the account with this id, as `id_idx` names it.
    fn index_by_id(&self, id: &str) -> (r: Option<usize>)
        ensures
            match r {
                Some(i) => i < self.view().len() && id_idx(self.view(), id@) == i,
                None => id_idx(self.view(), id@) == -1,
            },
    {
        let ghost s = self.view();
        let mut i: usize = 0;
        while i < self.accounts.len()
            invariant
                i <= self.accounts.len(),
                s == self.view(),
                s.len() == self.accounts@.len(),
                forall|j: int| 0 <= j < i ==> !(id_pred(id@)(s[j])),
            decreases self.accounts@.len() - i,
        {
            if str_eq(self.accounts[i].user.id.as_str(), id) {
                proof {
                    assert(id_pred(id@)(s[i as int]));
                    lemma_first_idx_is(s, id_pred(id@), i as int);
                }
                return Some(i);
            }
            i += 1;
        }
        proof {
            lemma_first_idx_is(s, id_pred(id@), s.len() as int);
        }
        None
    }

    /// Position of the account with this primary email, as `email_idx`
    /// names it.
    fn index_by_email(&self, email: &str) -> (r: Option<usize>)
        ensures
            match r {
                Some(i) => i < self.view().len() && email_idx(self.view(), email@) == i,
                None => email_idx(self.view(), email@) == -1,
            },
    {
        let ghost s = self.view();
        let mut i: usize = 0;
        while i < self.accounts.len()
            invariant
                i <= self.accounts.len(),
                s == self.view(),
                s.len() == self.accounts@.len(),
                forall|j: int| 0 <= j < i ==> !(email_pred(email@)(s[j])),
            decreases self.accounts@.len() - i,
        {
            if str_eq(self.accounts[i].user.email.as_str(), email) {
                proof {
                    assert(email_pred(email@)(s[i as int]));
                    lemma_first_idx_is(s, email_pred(email@), i as int);
                }
                return Some(i);
            }
            i += 1;
        }
        proof {
            lemma_first_idx_is(s, email_pred(email@), s.len() as int);
        }
        None
    }
}

fn clone_token(t: &UserToken) -> (r: UserToken)
    ensures
        r@ == t@,
{
    UserToken { token: t.token.clone(), used_for: t.used_for.clone() }
}

fn clone_tokens(v: &Vec<UserToken>) -> (r: Vec<UserToken>)
    ensures
        tokens_view(r@) == tokens_view(v@),
{
    let mut out: Vec<UserToken> = Vec::new();
    let mut i: usize = 0;
    while i < v.len()
        invariant
            i <= v@.len(),
            out@.len() == i,
            forall|j: int| 0 <= j < i ==> (#[trigger] out@[j])@ == v@[j]@,
        decreases v@.len() - i,
    {
        out.push(clone_token(&v[i]));
        i += 1;
    }
    proof {
        assert(tokens_view(out@) =~= tokens_view(v@));
    }
    out
}

fn clone_user(u: &User) -> (r: User)
    ensures
        r@ == u@,
{
    let r = User {
        id: u.id.clone(),
        email: u.email.clone(),
        first_name: u.first_name.clone(),
        last_name: u.last_name.clone(),
        u_type: u.u_type,
        password_alg: u.password_alg.clone(),
        password_hash: u.password_hash.clone(),
        created_at: u.created_at,
        tokens: clone_tokens(&u.tokens),
    };
    r
}

impl TUserRepositories for MemoryUserRepository {
    closed spec fn view(&self) -> Seq<AccountView> {
        Seq::new(
            self.accounts@.len(),
            |i: int|
                AccountView {
                    user: self.accounts@[i].user@,
                    is_verified: self.accounts@[i].is_verified,
                },
        )
    }

    fn insert(
        &mut self,
        first_name: &str,
        last_name: &str,
        phone: Option<&String>,
        email: &str,
        p_hash: &str,
        p_alg: &str,
        u_type: &str,
        is_verify: bool,
        is_primary: bool,
    ) -> (r: Result<String, String>) {
        let ghost s0 = self.view();
        if self.next_id == u64::MAX {
            return Err("id space exhausted".to_owned());
        }
        let id = u64_to_string(self.next_id);
        // The counter never revisits an id in practice; the scan makes
        // freshness a checked fact rather than an assumed one.
        if self.index_by_id(id.as_str()).is_some() {
            return Err("id collision".to_owned());
        }
        let role = match UserType::from_str(u_type) {
            Ok(t) => t,
            Err(m) => {
                return Err(m);
            },
        };
        let user = User {
            id: id.clone(),
            email: email.to_owned(),
            first_name: first_name.to_owned(),
            last_name: last_name.to_owned(),
            u_type: role,
            password_alg: p_alg.to_owned(),
            password_hash: p_hash.to_owned(),
            created_at: 0,
            tokens: Vec::new(),
        };
        proof {
            lemma_first_idx(s0, id_pred(id@));
        }
        self.accounts.push(MemUser { user, is_verified: is_verify });
        self.next_id = self.next_id + 1;
        proof {
            let a = new_account(
                id@,
                first_name@,
                last_name@,
                email@,
                p_hash@,
                p_alg@,
                UserType::spec_from_str(u_type@).unwrap(),
                is_verify,
                0,
            );
            assert(self.view()[s0.len() as int].user.tokens =~= a.user.tokens);
            assert(self.view()[s0.len() as int] == a);
            assert(self.view() =~= s0.push(a));
            assert(self.view() == s0.push(a));
            assert forall|k: int| 0 <= k < self.view().len() implies crate::store::tokens_wf(
                #[trigger] self.view()[k].user.tokens,
            ) by {
                if k < s0.len() {
                    assert(self.view()[k] == s0[k]);
                } else {
                    assert(self.view()[k] == a);
                }
            }
            assert forall|i: int, j: int|
                0 <= i < j < self.view().len() implies self.view()[i].user.id
                != self.view()[j].user.id by {
                if j < s0.len() {
                } else {
                    assert(!(id_pred(id@)(s0[i])));
                }
            }
            assert forall|i: int, j: int|
                0 <= i < j < self.view().len() implies self.view()[i].user.email
                != self.view()[j].user.email by {
                if j == s0.len() {
                    assert(!has_email(s0, email@));
                    assert(0 <= i < s0.len() && s0[i].user.email == self.view()[i].user.email);
                }
            }
            assert(store_inv(self.view()));
        }
        Ok(id)
    }

    fn find_by_email(&self, email: &str) -> (r: Option<(User, UserEmail)>) {
        match self.index_by_email(email) {
            None => None,
            Some(i) => {
                let u = clone_user(&self.accounts[i].user);
                let e = UserEmail {
                    is_primary: true,
                    is_verified: self.accounts[i].is_verified,
                    email: self.accounts[i].user.email.clone(),
                };
                Some((u, e))
            },
        }
    }

    fn find_by_id(&self, id: &str) -> (r: Option<User>) {
        match self.index_by_id(id) {
            None => None,
            Some(i) => Some(clone_user(&self.accounts[i].user)),
        }
    }

    fn find_by_type(&self, u_type: &UserType) -> (r: Vec<User>) {
        let ghost s = self.view();
        let ghost p = crate::store::type_pred(*u_type);
        let mut out: Vec<User> = Vec::new();
        let mut i: usize = 0;
        proof {
            assert(s.skip(0) =~= s);
            assert(out@.map_values(|u: User| u@) =~= Seq::<crate::user::UserView>::empty());
            assert(crate::store::filter_front(s, p).map_values(|a: AccountView| a.user) =~= out@
                .map_values(|u: User| u@) + crate::store::filter_front(s.skip(0), p).map_values(
                |a: AccountView| a.user,
            ));
        }
        while i < self.accounts.len()
            invariant
                i <= self.accounts.len(),
                s == self.view(),
                s.len() == self.accounts@.len(),
                p == crate::store::type_pred(*u_type),
                crate::store::filter_front(s, p).map_values(|a: AccountView| a.user) =~= out@
                    .map_values(|u: User| u@) + crate::store::filter_front(
                    s.skip(i as int),
                    p,
                ).map_values(|a: AccountView| a.user),
            decreases self.accounts@.len() - i,
        {
            proof {
                let rest = s.skip(i as int);
                assert(rest[0] == s[i as int]);
                assert(rest.drop_first() =~= s.skip(i as int + 1));
            }
            if self.accounts[i].user.u_type == *u_type {
                out.push(clone_user(&self.accounts[i].user));
                proof {
                    let rest = s.skip(i as int);
                    assert(p(rest[0]));
                    assert(crate::store::filter_front(rest, p) == seq![rest[0]]
                        + crate::store::filter_front(s.skip(i as int + 1), p));
                    assert(crate::store::filter_front(s, p).map_values(|a: AccountView| a.user)
                        =~= out@.map_values(|u: User| u@) + crate::store::filter_front(
                        s.skip(i as int + 1),
                        p,
                    ).map_values(|a: AccountView| a.user));
                }
            } else {
                proof {
                    let rest = s.skip(i as int);
                    assert(!p(rest[0]));
                }
            }
            i += 1;
        }
        proof {
            assert(s.skip(s.len() as int) =~= Seq::<AccountView>::empty());
            assert(out@.map_values(|u: User| u@) =~= crate::store::users_of_type(s, *u_type));
        }
        out
    }

    fn find_token_by(&self, user_id: &str, used_for: &str) -> (r: Option<String>) {
        let i = match self.index_by_id(user_id) {
            Some(i) => i,
            None => {
                return None;
            },
        };
        let j = match token_index(&self.accounts[i].user.tokens, used_for) {
            Some(j) => j,
            None => {
                return None;
            },
        };
        Some(self.accounts[i].user.tokens[j].token.clone())
    }

    fn upsert_user_token(&mut self, user_id: &str, token: &str, used_for: &str) -> (r: Result<
        bool,
        String,
    >) {
        let ghost s0 = self.view();
        let i = match self.index_by_id(user_id) {
            Some(i) => i,
            None => {
                proof {
                    lemma_first_idx(s0, id_pred(user_id@));
                }
                return Err("user not found".to_owned());
            },
        };
        let row = UserToken { token: token.to_owned(), used_for: used_for.to_owned() };
        let ghost a1 = crate::store::upsert_token_a(s0[i as int], token@, used_for@);
        match token_index(&self.accounts[i].user.tokens, used_for) {
            Some(j) => {
                self.accounts[i].user.tokens[j] = row;
            },
            None => {
                self.accounts[i].user.tokens.push(row);
            },
        }
        proof {
            assert(self.view()[i as int].user.tokens =~= a1.user.tokens);
            assert(self.view()[i as int] == a1);
            assert(self.view() =~= s0.update(i as int, a1));
            crate::store::lemma_upsert_tokens_wf(s0[i as int], token@, used_for@);
            assert forall|k: int| 0 <= k < self.view().len() implies crate::store::tokens_wf(
                #[trigger] self.view()[k].user.tokens,
            ) by {
                if k != i {
                    assert(self.view()[k] == s0[k]);
                }
            }
            assert(store_inv(self.view()));
        }
        Ok(true)
    }

    fn remove_user_tokens(&mut self, user_id: &str, tokens: &Vec<String>) -> (r: Result<
        (),
        String,
    >) {
        let ghost s0 = self.view();
        let ghost removed = tokens@.map_values(|t: String| t@);
        let i = match self.index_by_id(user_id) {
            Some(i) => i,
            None => {
                return Ok(());
            },
        };
        let ghost p = crate::store::keep_pred(removed);
        let ghost old_ts = s0[i as int].user.tokens;
        let mut kept: Vec<UserToken> = Vec::new();
        let mut k: usize = 0;
        let n = self.accounts[i].user.tokens.len();
        proof {
            assert(old_ts.skip(0) =~= old_ts);
            assert(tokens_view(kept@) =~= Seq::<crate::user::TokenView>::empty());
            assert(crate::store::filter_front(old_ts, p) =~= tokens_view(kept@)
                + crate::store::filter_front(old_ts.skip(0), p));
        }
        while k < n
            invariant
                k <= n,
                s0 == self.view(),
                0 <= i < self.accounts@.len(),
                s0.len() == self.accounts@.len(),
                n == self.accounts@[i as int].user.tokens@.len(),
                old_ts == s0[i as int].user.tokens,
                old_ts == tokens_view(self.accounts@[i as int].user.tokens@),
                p == crate::store::keep_pred(removed),
                removed == tokens@.map_values(|t: String| t@),
                crate::store::filter_front(old_ts, p) =~= tokens_view(kept@)
                    + crate::store::filter_front(old_ts.skip(k as int), p),
            decreases n - k,
        {
            proof {
                let rest = old_ts.skip(k as int);
                assert(rest[0] == old_ts[k as int]);
                assert(rest.drop_first() =~= old_ts.skip(k as int + 1));
            }
            if !contains_str(tokens, self.accounts[i].user.tokens[k].token.as_str()) {
                kept.push(clone_token(&self.accounts[i].user.tokens[k]));
                proof {
                    let rest = old_ts.skip(k as int);
                    assert(p(rest[0]));
                    assert(crate::store::filter_front(rest, p) == seq![rest[0]]
                        + crate::store::filter_front(old_ts.skip(k as int + 1), p));
                    assert(crate::store::filter_front(old_ts, p) =~= tokens_view(kept@)
                        + crate::store::filter_front(old_ts.skip(k as int + 1), p));
                }
            } else {
                proof {
                    let rest = old_ts.skip(k as int);
                    assert(!p(rest[0]));
                }
            }
            k += 1;
        }
        self.accounts[i].user.tokens = kept;
        proof {
            assert(old_ts.skip(old_ts.len() as int) =~= Seq::<crate::user::TokenView>::empty());
            let a1 = crate::store::remove_tokens_a(s0[i as int], removed);
            assert(self.view()[i as int].user.tokens =~= a1.user.tokens);
            assert(self.view()[i as int] == a1);
            assert(self.view() =~= s0.update(i as int, a1));
            lemma_filter_front_wf(old_ts, p);
            assert forall|m: int| 0 <= m < self.view().len() implies crate::store::tokens_wf(
                #[trigger] self.view()[m].user.tokens,
            ) by {
                if m != i {
                    assert(self.view()[m] == s0[m]);
                }
            }
            assert(store_inv(self.view()));
        }
        Ok(())
    }

    fn update_password(&mut self, user_id: &str, alg: &str, hash: &str) -> (r: Result<
        bool,
        String,
    >) {
        let ghost s0 = self.view();
        let i = match self.index_by_id(user_id) {
            Some(i) => i,
            None => {
                return Ok(false);
            },
        };
        self.accounts[i].user.password_alg = alg.to_owned();
        self.accounts[i].user.password_hash = hash.to_owned();
        proof {
            let a1 = crate::store::set_password_a(s0[i as int], alg@, hash@);
            assert(self.view()[i as int].user.tokens =~= a1.user.tokens);
            assert(self.view()[i as int] == a1);
            assert(self.view() =~= s0.update(i as int, a1));
            assert forall|m: int| 0 <= m < self.view().len() implies crate::store::tokens_wf(
                #[trigger] self.view()[m].user.tokens,
            ) by {
                if m != i {
                    assert(self.view()[m] == s0[m]);
                } else {
                    assert(a1.user.tokens == s0[i as int].user.tokens);
                }
            }
            assert(store_inv(self.view()));
        }
        Ok(true)
    }

    fn update_verify_email(&mut self, email: &str, is_verify: bool) -> (r: Result<bool, String>) {
        let ghost s0 = self.view();
        let i = match self.index_by_email(email) {
            Some(i) => i,
            None => {
                return Ok(false);
            },
        };
        self.accounts[i].is_verified = is_verify;
        proof {
            let a1 = crate::store::set_verified_a(s0[i as int], is_verify);
            assert(self.view()[i as int].user.tokens =~= a1.user.tokens);
            assert(self.view()[i as int] == a1);
            assert(self.view() =~= s0.update(i as int, a1));
            assert forall|m: int| 0 <= m < self.view().len() implies crate::store::tokens_wf(
                #[trigger] self.view()[m].user.tokens,
            ) by {
                if m != i {
                    assert(self.view()[m] == s0[m]);
                } else {
                    assert(a1.user.tokens == s0[i as int].user.tokens);
                }
            }
            assert(store_inv(self.view()));
        }
        Ok(true)
    }
}

/// Position of the token row with this purpose, as `token_idx` names it.
fn token_index(v: &Vec<UserToken>, used_for: &str) -> (r: Option<usize>)
    ensures
        match r {
            Some(j) => j < v@.len() && crate::store::token_idx(tokens_view(v@), used_for@) == j,
            None => crate::store::token_idx(tokens_view(v@), used_for@) == -1,
        },
{
    let ghost ts = tokens_view(v@);
    let mut j: usize = 0;
    while j < v.len()
        invariant
            j <= v@.len(),
            ts == tokens_view(v@),
            ts.len() == v@.len(),
            forall|m: int| 0 <= m < j ==> !(crate::store::purpose_pred(used_for@)(ts[m])),
        decreases v@.len() - j,
    {
        if str_eq(v[j].used_for.as_str(), used_for) {
            proof {
                assert(crate::store::purpose_pred(used_for@)(ts[j as int]));
                lemma_first_idx_is(ts, crate::store::purpose_pred(used_for@), j as int);
            }
            return Some(j);
        }
        j += 1;
    }
    proof {
        lemma_first_idx_is(ts, crate::store::purpose_pred(used_for@), ts.len() as int);
    }
    None
}

/// Whether some listed string equals `s`.
fn contains_str(v: &Vec<String>, s: &str) -> (r: bool)
    ensures
        r == v@.map_values(|t: String| t@).contains(s@),
{
    let ghost m = v@.map_values(|t: String| t@);
    let mut i: usize = 0;
    while i < v.len()
        invariant
            i <= v@.len(),
            m == v@.map_values(|t: String| t@),
            m.len() == v@.len(),
            forall|j: int| 0 <= j < i ==> m[j] != s@,
        decreases v@.len() - i,
    {
        if str_eq(v[i].as_str(), s) {
            proof {
                assert(m[i as int] == s@);
            }
            return true;
        }
        i += 1;
    }
    proof {
        assert(!m.contains(s@));
    }
    false
}

/// Filtering keeps the one-row-per-purpose shape.
proof fn lemma_filter_front_wf(
    ts: Seq<crate::user::TokenView>,
    p: spec_fn(crate::user::TokenView) -> bool,
)
    requires
        crate::store::tokens_wf(ts),
    ensures
        crate::store::tokens_wf(crate::store::filter_front(ts, p)),
    decreases ts.len(),
{
    if ts.len() > 0 {
        let rest = ts.drop_first();
        assert(forall|i: int| 0 <= i < rest.len() ==> rest[i] == ts[i + 1]);
        lemma_filter_front_wf(rest, p);
        if p(ts[0]) {
            let f = crate::store::filter_front(rest, p);
            lemma_filter_front_members(rest, p);
            assert forall|i: int, j: int|
                0 <= i < j < crate::store::filter_front(ts, p).len() implies crate::store::filter_front(
                ts,
                p,
            )[i].used_for != crate::store::filter_front(ts, p)[j].used_for by {
                let all = crate::store::filter_front(ts, p);
                assert(all == seq![ts[0]] + f);
                if i == 0 {
                    assert(all[j] == f[j - 1]);
                    assert(rest.contains(f[j - 1]));
                    let w = choose|w: int| 0 <= w < rest.len() && rest[w] == f[j - 1];
                    assert(ts[w + 1] == f[j - 1]);
                } else {
                    assert(all[i] == f[i - 1] && all[j] == f[j - 1]);
                }
            }
        }
    }
}

/// Everything the filter keeps was in the sequence.
proof fn lemma_filter_front_members<A>(s: Seq<A>, p: spec_fn(A) -> bool)
    ensures
        forall|i: int|
            0 <= i < crate::store::filter_front(s, p).len() ==> s.contains(
                #[trigger] crate::store::filter_front(s, p)[i],
            ),
    decreases s.len(),
{
    if s.len() > 0 {
        let rest = s.drop_first();
        lemma_filter_front_members(rest, p);
        assert forall|i: int|
            0 <= i < crate::store::filter_front(s, p).len() implies s.contains(
            #[trigger] crate::store::filter_front(s, p)[i],
        ) by {
            let all = crate::store::filter_front(s, p);
            let f = crate::store::filter_front(rest, p);
            if p(s[0]) {
                assert(all == seq![s[0]] + f);
                if i == 0 {
                    assert(s[0] == all[0]);
                } else {
                    assert(all[i] == f[i - 1]);
                    assert(rest.contains(f[i - 1]));
                    let w = choose|w: int| 0 <= w < rest.len() && rest[w] == f[i - 1];
                    assert(s[w + 1] == all[i]);
                }
            } else {
                assert(all == f);
                assert(rest.contains(f[i]));
                let w = choose|w: int| 0 <= w < rest.len() && rest[w] == f[i];
                assert(s[w + 1] == all[i]);
            }
        }
    }
}

} // verus!
