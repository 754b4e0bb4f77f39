use vstd::prelude::*;

use argon2::{Argon2, PasswordHash, PasswordVerifier};

verus! {

/// What the constant-time password verifier of the `argon2` crate decides for
/// a stored hash string and a supplied password. The verifier re-derives the
/// algorithm, parameters and salt from the hash string itself and recomputes
/// the digest, so its verdict is a function of the two strings alone.
pub uninterp spec fn hash_matches(hash: Seq<char>, password: Seq<char>) -> bool;

/// Relies on `password_hash::PasswordHash::new` and argon2's
/// `PasswordVerifier::verify_password`: parses the stored hash string and
/// checks the supplied password against it; both steps depend only on the two
/// strings. An unparsable stored string matches no password.
#[verifier::external_body]
pub(crate) fn verify_password(hash: &str, password: &str) -> (r: bool)
    ensures
        r == hash_matches(hash@, password@),
{
    match PasswordHash::new(hash) {
        Ok(parsed) => Argon2::default().verify_password(password.as_bytes(), &parsed).is_ok(),
        Err(_) => false,
    }
}

} // verus!
