//! The password hasher: a randomized salted one-way hash with a deliberately
//! slow cost factor, and its verification, provided by the bcrypt library
//! behind trusted contracts.

use vstd::prelude::*;

verus! {

// Names the outcome of bcrypt::verify for a password and a stored hash:
// Some(true) when the password matches the hash, Some(false) when it does
// not, None when the stored hash cannot be parsed. The outcome depends on
// the password and the hash alone.
pub uninterp spec fn bcrypt_verify_result(password: Seq<char>, hash: Seq<char>) -> Option<bool>;

/// The shape of every bcrypt hash string: exactly 60 characters, opening
/// with the `$2` version tag — never a raw password of another length or
/// shape.
pub open spec fn bcrypt_hash_shaped(h: Seq<char>) -> bool {
    h.len() == 60 && h[0] == '$' && h[1] == '2'
}

/// Relies on bcrypt::hash at the library's default cost: a salted one-way
/// hash with a fresh random salt, so the result itself is not pinned down;
/// whatever hash comes back, it is a 60-character `$2`-prefixed hash string,
/// and bcrypt's verify accepts the hashed password against it.
#[verifier::external_body]
pub(crate) fn hash_password(password: &String) -> (r: Option<String>)
    ensures
        r matches Some(h) ==> bcrypt_hash_shaped(h@) && bcrypt_verify_result(password@, h@)
            == Some(true),
{
    bcrypt::hash(password.as_str(), bcrypt::DEFAULT_COST).ok()
}

/// Relies on bcrypt::verify: recomputes the hash from the stored salt and
/// cost and compares in constant time; errs only on a malformed stored hash.
#[verifier::external_body]
pub(crate) fn verify_password(password: &String, hash: &String) -> (r: Option<bool>)
    ensures
        r == bcrypt_verify_result(password@, hash@),
{
    bcrypt::verify(password.as_str(), hash.as_str()).ok()
}

} // verus!
