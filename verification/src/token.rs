//! Token generation: one opaque bearer token per call, drawn from a
//! cryptographically secure random source.
//!
//! A token is a version-4 UUID in its hyphenated text form: 122 random
//! bits, 36 characters. No uniqueness check follows generation; the
//! collision probability is treated as negligible and accepted.

use vstd::prelude::*;

verus! {

/// The length, in characters, of every token this service issues.
pub const TOKEN_LENGTH: u64 = 36;

/// Relies on uuid's `Uuid::new_v4` and its `Display` form: a fresh
/// version-4 UUID from the process's secure random source, written as
/// the 36-character hyphenated string. The value is random, so nothing
/// beyond its length is stated, and two calls may not be assumed to
/// agree or to differ. Should the operating system's random source
/// itself fail, `new_v4` panics — an environmental failure, not one
/// any input can bring about.
#[verifier::external_body]
pub fn fresh_token() -> (r: String)
    ensures
        r@.len() == TOKEN_LENGTH,
{
    uuid::Uuid::new_v4().to_string()
}

} // verus!
