//! The session side of the user service: resolving the caller behind a
//! login token. A session is valid only while the claim is unexpired and
//! the presented token is still stored for the user — deleting the row
//! revokes the session even though the signature stays valid.

use vstd::prelude::*;
use crate::claims::ClaimType;
use crate::errors::AuthError;
use crate::jwt::{parse_spec, JWT};
use crate::store::{
    filter_front, id_idx, id_pred, lemma_first_idx, store_inv, users_of_type, AccountView,
    TUserRepositories,
};
use crate::strutil::{contains_seq, is_substring, str_eq};
use crate::user::{tokens_view, User, UserToken, UserType, UserView};
use crate::validate::{field_pairs, get_all_errors, GetAllParams};

verus! {

/// Matching a search string on either name or the email, as a predicate
/// value.
pub open spec fn search_pred(q: Seq<char>) -> spec_fn(UserView) -> bool {
    |u: UserView|
        contains_seq(u.first_name, q) || contains_seq(u.last_name, q) || contains_seq(u.email, q)
}

/// The users of every role, grouped by role.
pub open spec fn all_roles(s: Seq<AccountView>) -> Seq<UserView> {
    users_of_type(s, UserType::Client) + users_of_type(s, UserType::Vendor) + users_of_type(
        s,
        UserType::Admin,
    )
}

/// What a listing returns for a store `s` and filters `p`: the users of
/// the requested role (or of every role), narrowed to those matching the
/// search string if one is given, with the skip/limit window applied.
pub open spec fn get_all_spec(s: Seq<AccountView>, p: GetAllParams) -> Seq<UserView> {
    let base = match p.u_type {
        Some(t) => match UserType::spec_from_str(t@) {
            Some(ut) => users_of_type(s, ut),
            None => Seq::empty(),
        },
        None => all_roles(s),
    };
    let searched = match p.search {
        Some(q) => filter_front(base, search_pred(q@)),
        None => base,
    };
    let lo: int = match p.skip {
        Some(k) => if k < 0 {
            0
        } else if k as int > searched.len() as int {
            searched.len() as int
        } else {
            k as int
        },
        None => 0,
    };
    let hi: int = match p.limit {
        Some(l) => if l < 0 {
            lo
        } else if lo + l as int > searched.len() as int {
            searched.len() as int
        } else {
            lo + l as int
        },
        None => searched.len() as int,
    };
    searched.subrange(lo, hi)
}

/// Whether the account holds a row with exactly this token string, under
/// any purpose.
pub open spec fn has_token_string(a: AccountView, t: Seq<char>) -> bool {
    exists|k: int| 0 <= k < a.user.tokens.len() && (#[trigger] a.user.tokens[k]).token == t
}

fn has_token(v: &Vec<UserToken>, t: &str) -> (r: bool)
    ensures
        r == (exists|k: int|
            0 <= k < tokens_view(v@).len() && (#[trigger] tokens_view(v@)[k]).token == t@),
{
    let mut i: usize = 0;
    while i < v.len()
        invariant
            i <= v@.len(),
            forall|k: int| 0 <= k < i ==> (#[trigger] tokens_view(v@)[k]).token != t@,
        decreases v@.len() - i,
    {
        if str_eq(v[i].token.as_str(), t) {
            proof {
                assert(tokens_view(v@)[i as int].token == t@);
            }
            return true;
        }
        i += 1;
    }
    false
}

/// Reads sessions: hands back the user a presented login token belongs to.
pub struct UserService {
    jwt: JWT,
}

impl UserService {
    /// The signing secret the service's codec uses.
    pub closed spec fn spec_secret(&self) -> Seq<char> {
        self.jwt.spec_secret()
    }

    pub fn new(secret: String) -> (r: UserService)
        ensures
            r.spec_secret() == secret@,
    {
        UserService { jwt: JWT::new(secret) }
    }

    /// Who a presented login token identifies in store `s` at time `now`:
    /// the account index, or the one error owed. The token must parse as
    /// `Login`, name a known user id, and still be stored for that user —
    /// a deleted (revoked) row invalidates the session.
    pub open spec fn current_user_check(
        s: Seq<AccountView>,
        token: Seq<char>,
        now: u64,
        secret: Seq<char>,
    ) -> Result<int, AuthError> {
        match parse_spec(token, Some(ClaimType::Login), now, secret) {
            Err(e) => Err(e),
            Ok(c) => {
                let i = id_idx(s, c.sub);
                if i == -1 {
                    Err(AuthError::NotFound)
                } else if !has_token_string(s[i], token) {
                    Err(AuthError::TokenExpiredOrRevoked)
                } else {
                    Ok(i)
                }
            },
        }
    }

    /// Resolves the caller behind a login token.
    pub fn get_current_user<S: TUserRepositories>(&self, store: &S, token: &str, now: u64) -> (r:
        Result<User, AuthError>)
        ensures
            match r {
                Ok(u) => ({
                    let ck = UserService::current_user_check(
                        store.view(),
                        token@,
                        now,
                        self.spec_secret(),
                    );
                    ck matches Ok(i) && u@ == store.view()[i].user
                }),
                Err(e) => UserService::current_user_check(
                    store.view(),
                    token@,
                    now,
                    self.spec_secret(),
                ) == Err::<int, AuthError>(e),
            },
    {
        let claims = match self.jwt.parse(token, Some(ClaimType::Login), now) {
            Ok(c) => c,
            Err(e) => {
                return Err(e);
            },
        };
        let user = match store.find_by_id(claims.sub.as_str()) {
            Some(u) => u,
            None => {
                return Err(AuthError::NotFound);
            },
        };
        if !has_token(&user.tokens, token) {
            proof {
                let s = store.view();
                let i = id_idx(s, claims.sub@);
                assert(s[i].user.tokens == tokens_view(user.tokens@));
                assert(!has_token_string(s[i], token@));
            }
            return Err(AuthError::TokenExpiredOrRevoked);
        }
        proof {
            let s = store.view();
            let i = id_idx(s, claims.sub@);
            assert(s[i].user.tokens == tokens_view(user.tokens@));
            assert(has_token_string(s[i], token@));
        }
        Ok(user)
    }

    /// Lists users for an administrator: only a caller whose session
    /// resolves to an `Admin` account may ask, and the result is exactly
    /// the filtered window `get_all_spec` names.
    pub fn get_all<S: TUserRepositories>(
        &self,
        store: &S,
        token: &str,
        params: GetAllParams,
        now: u64,
    ) -> (r: Result<Vec<User>, AuthError>)
        ensures
            ({
                let s = store.view();
                if get_all_errors(params).len() > 0 {
                    r matches Err(e) && (e matches AuthError::Validation(v) && field_pairs(v@)
                        == get_all_errors(params))
                } else {
                    match UserService::current_user_check(s, token@, now, self.spec_secret()) {
                        Err(e) => r == Err::<Vec<User>, AuthError>(e),
                        Ok(i) => if s[i].user.u_type != UserType::Admin {
                            r == Err::<Vec<User>, AuthError>(AuthError::Forbidden)
                        } else {
                            r matches Ok(v) && v@.map_values(|u: User| u@) == get_all_spec(
                                s,
                                params,
                            )
                        },
                    }
                }
            }),
    {
        match params.validate() {
            Ok(_) => {},
            Err(e) => {
                return Err(e);
            },
        }
        let me = match self.get_current_user(store, token, now) {
            Ok(u) => u,
            Err(e) => {
                return Err(e);
            },
        };
        if me.u_type != UserType::Admin {
            return Err(AuthError::Forbidden);
        }
        let ghost s = store.view();
        let base: Vec<User> = match &params.u_type {
            Some(t) => {
                let ut = match UserType::from_str(t.as_str()) {
                    Ok(ut) => ut,
                    Err(_) => {
                        proof {
                            assert(false);
                        }
                        return Err(AuthError::Forbidden);
                    },
                };
                store.find_by_type(&ut)
            },
            None => {
                let mut out = store.find_by_type(&UserType::Client);
                let mut vend = store.find_by_type(&UserType::Vendor);
                let mut adm = store.find_by_type(&UserType::Admin);
                out.append(&mut vend);
                out.append(&mut adm);
                proof {
                    assert(out@.map_values(|u: User| u@) =~= all_roles(s));
                }
                out
            },
        };
        let ghost base_v = base@.map_values(|u: User| u@);
        let searched: Vec<User> = match &params.search {
            Some(q) => {
                let ghost p = search_pred(q@);
                let mut rest = base;
                let mut out: Vec<User> = Vec::new();
                proof {
                    assert(rest@.map_values(|u: User| u@).skip(0) =~= rest@.map_values(
                        |u: User| u@,
                    ));
                    assert(out@.map_values(|u: User| u@) =~= Seq::<UserView>::empty());
                    assert(filter_front(base_v, p) =~= out@.map_values(|u: User| u@)
                        + filter_front(rest@.map_values(|u: User| u@), p));
                }
                while rest.len() > 0
                    invariant
                        p == search_pred(q@),
                        filter_front(base_v, p) =~= out@.map_values(|u: User| u@) + filter_front(
                            rest@.map_values(|u: User| u@),
                            p,
                        ),
                    decreases rest@.len(),
                {
                    let ghost rest_v = rest@.map_values(|u: User| u@);
                    let u = rest.remove(0);
                    proof {
                        assert(rest_v[0] == u@);
                        assert(rest@.map_values(|u2: User| u2@) =~= rest_v.drop_first());
                    }
                    let keep = is_substring(u.first_name.as_str(), q.as_str()) || is_substring(
                        u.last_name.as_str(),
                        q.as_str(),
                    ) || is_substring(u.email.as_str(), q.as_str());
                    proof {
                        assert(keep == p(rest_v[0]));
                        if keep {
                            assert(filter_front(rest_v, p) == seq![rest_v[0]] + filter_front(
                                rest_v.drop_first(),
                                p,
                            ));
                        } else {
                            assert(filter_front(rest_v, p) == filter_front(
                                rest_v.drop_first(),
                                p,
                            ));
                        }
                    }
                    if keep {
                        out.push(u);
                        proof {
                            assert(filter_front(base_v, p) =~= out@.map_values(|u2: User| u2@)
                                + filter_front(rest@.map_values(|u2: User| u2@), p));
                        }
                    }
                }
                proof {
                    assert(rest@.map_values(|u: User| u@) =~= Seq::<UserView>::empty());
                    assert(out@.map_values(|u: User| u@) =~= filter_front(base_v, p));
                }
                out
            },
            None => base,
        };
        let ghost searched_v = searched@.map_values(|u: User| u@);
        let len: usize = searched.len();
        let lo: usize = match params.skip {
            Some(k) => if k < 0 {
                0
            } else if (k as u64) > (len as u64) {
                len
            } else {
                k as usize
            },
            None => 0,
        };
        let hi: usize = match params.limit {
            Some(l) => if l < 0 {
                lo
            } else if (l as u64) > ((len - lo) as u64) {
                len
            } else {
                lo + (l as usize)
            },
            None => len,
        };
        let mut rest = searched;
        let mut k: usize = 0;
        proof {
            assert(rest@.map_values(|u: User| u@) =~= searched_v.subrange(0, len as int));
        }
        while k < lo
            invariant
                k <= lo <= len,
                len == searched_v.len(),
                rest@.map_values(|u: User| u@) =~= searched_v.subrange(k as int, len as int),
            decreases lo - k,
        {
            let ghost rest_v = rest@.map_values(|u: User| u@);
            rest.remove(0);
            proof {
                assert(rest@.map_values(|u: User| u@) =~= rest_v.drop_first());
                assert(rest_v.drop_first() =~= searched_v.subrange(k + 1, len as int));
            }
            k += 1;
        }
        let mut out: Vec<User> = Vec::new();
        proof {
            assert(out@.map_values(|u: User| u@) =~= searched_v.subrange(
                lo as int,
                lo as int + out@.len(),
            ));
        }
        while out.len() < hi - lo
            invariant
                lo <= hi <= len,
                len == searched_v.len(),
                out@.len() <= hi - lo,
                out@.map_values(|u: User| u@) =~= searched_v.subrange(
                    lo as int,
                    lo as int + out@.len(),
                ),
                rest@.map_values(|u: User| u@) =~= searched_v.subrange(
                    lo as int + out@.len(),
                    len as int,
                ),
            decreases hi - lo - out@.len(),
        {
            let ghost rest_v = rest@.map_values(|u: User| u@);
            let ghost n0 = out@.len() as int;
            proof {
                assert(rest_v.len() == len - lo - n0);
                assert(rest@.len() == rest_v.len());
            }
            let u = rest.remove(0);
            proof {
                assert(u@ == rest_v[0]);
                assert(rest_v[0] == searched_v[lo as int + n0]);
            }
            out.push(u);
            proof {
                assert(rest@.map_values(|u2: User| u2@) =~= rest_v.drop_first());
                assert(rest_v.drop_first() =~= searched_v.subrange(
                    lo as int + n0 + 1,
                    len as int,
                ));
                assert(out@.map_values(|u2: User| u2@) =~= searched_v.subrange(
                    lo as int,
                    lo as int + n0 + 1,
                ));
            }
        }
        proof {
            assert(out@.map_values(|u: User| u@) == get_all_spec(s, params));
        }
        Ok(out)
    }
}

} // verus!
