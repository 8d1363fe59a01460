//! The credential verifier: password hashing and verification are an
//! outside collaborator (bcrypt), depended on as a black-box derive/verify
//! pair and never reimplemented here.

use vstd::prelude::*;

verus! {

/// Whether `password` matches the stored `hash`: the (deterministic) verdict
/// of the outside hash scheme on these two strings. An unparsable hash
/// matches nothing.
pub uninterp spec fn password_matches(password: Seq<char>, hash: Seq<char>) -> bool;

/// Relies on bcrypt::verify: a deterministic function of the password and
/// the stored hash string. Its error (an unparsable hash) is collapsed to
/// "no match".
#[verifier::external_body]
pub(crate) fn verify_password(password: &str, hash: &str) -> (r: bool)
    ensures
        r == password_matches(password@, hash@),
{
    match bcrypt::verify(password, hash) {
        Ok(b) => b,
        Err(_) => false,
    }
}

/// Relies on bcrypt::hash at the default cost: any hash it returns verifies
/// against the password it was derived from (the salt is drawn at random,
/// so nothing more is promised of the result).
#[verifier::external_body]
pub(crate) fn hash_password(password: &str) -> (r: Option<String>)
    ensures
        r matches Some(h) ==> password_matches(password@, h@),
{
    bcrypt::hash(password, bcrypt::DEFAULT_COST).ok()
}

} // verus!
