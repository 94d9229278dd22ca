//! Password verification against a stored salted, memory-hard hash.
//!
//! The stored hash is an opaque, algorithm-tagged PHC string whose
//! parameters and salt are embedded in the string itself, so checking a
//! plaintext against it is a pure function of the two strings. The
//! check is done by the argon2 crate, which recomputes the hash and
//! compares in constant time; this module only classifies its answer.

use vstd::prelude::*;

use argon2::PasswordVerifier;

verus! {

/// Outcome of checking a plaintext password against a stored hash.
#[derive(Clone, Copy, Debug, PartialEq, Eq, Structural)]
pub enum HashCheck {
    /// The password is the one the stored hash was derived from.
    Match,
    /// The stored hash is usable but was not derived from this password.
    Mismatch,
    /// The stored hash cannot be used: it does not parse as a PHC
    /// string, or names an unsupported algorithm, version or
    /// parameters. A sign of corrupt stored data, never of user error.
    Malformed,
}

/// The verdict of argon2 verification on a password and a stored PHC
/// hash string. Verification embeds no randomness — salt and parameters
/// come out of the hash string — so the verdict depends on the two
/// strings alone; its definition (the argon2 key derivation) is left to
/// the crate that computes it.
pub uninterp spec fn password_verdict(password: Seq<char>, stored_hash: Seq<char>) -> HashCheck;

/// Relies on argon2's `PasswordHash::new` and `Argon2::verify_password`:
/// parsing and verification recompute the hash over the password with
/// the salt and parameters the stored string carries, deterministic in
/// the two arguments. A string that does not parse, or parses without
/// a salt or a hash output — for which verification would report
/// `PasswordInvalid`, the same error as a user's wrong password — is
/// classified unusable here, before verification is asked. After that,
/// `Error::PasswordInvalid` means exactly a well-formed hash the
/// password does not match, and every other error an unusable hash.
#[verifier::external_body]
pub fn check_password(password: &str, stored_hash: &str) -> (r: HashCheck)
    ensures
        r == password_verdict(password@, stored_hash@),
{
    let parsed = match argon2::PasswordHash::new(stored_hash) {
        Ok(parsed) => parsed,
        Err(_) => return HashCheck::Malformed,
    };
    if parsed.salt.is_none() || parsed.hash.is_none() {
        return HashCheck::Malformed;
    }
    match argon2::Argon2::default().verify_password(password.as_bytes(), &parsed) {
        Ok(()) => HashCheck::Match,
        Err(argon2::password_hash::Error::PasswordInvalid) => HashCheck::Mismatch,
        Err(_) => HashCheck::Malformed,
    }
}

} // verus!
