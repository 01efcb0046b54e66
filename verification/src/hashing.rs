//! The password hashing collaborator: a hash/verify pair behind a trait,
//! so the orchestrator depends only on the relation the pair decides.

use vstd::prelude::*;

verus! {

/// A password hash/verify pair. `pwd_matches` is the relation the pair
/// decides: `verify_pwd` answers it, and `hash_pwd` produces a hash that
/// stands in it with the password that was hashed.
pub trait TPasswordHasher {
    /// Whether `hash` is a hash of `pwd` under this hasher. An
    /// implementation that leaves this at its default models a relation
    /// that never holds and so promises nothing useful; verified
    /// implementations override it.
    open spec fn pwd_matches(&self, hash: Seq<char>, pwd: Seq<char>) -> bool {
        false
    }

    /// Hashes a password; returns the algorithm tag and the hash.
    fn hash_pwd(&self, pwd: &str) -> (r: Result<(String, String), String>)
        ensures
            r matches Ok(p) ==> self.pwd_matches(p.1@, pwd@),
    ;

    /// Checks a password against a stored hash.
    fn verify_pwd(&self, hash: &str, pwd: &str) -> (r: bool)
        ensures
            r == self.pwd_matches(hash@, pwd@),
    ;
}

/// The identity "hasher": stores the password itself under the `plain`
/// tag. It decides exact equality, which makes behaviour fully checkable;
/// production deployments supply a real hasher through the same trait.
pub struct PlainTextHasher;

impl TPasswordHasher for PlainTextHasher {
    open spec fn pwd_matches(&self, hash: Seq<char>, pwd: Seq<char>) -> bool {
        hash == pwd
    }

    fn hash_pwd(&self, pwd: &str) -> (r: Result<(String, String), String>)
        ensures
            r matches Ok(p) ==> self.pwd_matches(p.1@, pwd@),
            r is Ok,
    {
        Ok(("plain".to_owned(), pwd.to_owned()))
    }

    fn verify_pwd(&self, hash: &str, pwd: &str) -> (r: bool)
        ensures
            r == self.pwd_matches(hash@, pwd@),
    {
        crate::strutil::str_eq(hash, pwd)
    }
}

} // verus!
