//! Password hashing and checking with argon2, over PHC strings.

use vstd::prelude::*;
use vstd::string::*;
use argon2::password_hash::rand_core::OsRng;
use argon2::password_hash::SaltString;
use argon2::{Argon2, PasswordHash, PasswordHasher, PasswordVerifier};

verus! {

/// The longest password, in bytes, that argon2 hashes (`argon2::MAX_PWD_LEN`).
pub const MAX_PASSWORD_BYTES: usize = 0xFFFF_FFFF;

/// Whether a password is short enough for argon2 to hash: its UTF-8 encoding
/// has at most `MAX_PASSWORD_BYTES` bytes.
pub open spec fn hashable_password(password: Seq<char>) -> bool {
    vstd::utf8::encode_utf8(password).len() <= MAX_PASSWORD_BYTES
}

/// Whether `argon2::PasswordHash::new` reads `phc` as a PHC string.
pub uninterp spec fn phc_well_formed(phc: Seq<char>) -> bool;

/// Whether `Argon2::default().verify_password` accepts the UTF-8 bytes of
/// `password` against the PHC string `phc`.
pub uninterp spec fn argon2_accepts(password: Seq<char>, phc: Seq<char>) -> bool;

/// Hashes `password` with `Argon2::default().hash_password` under a salt that
/// `SaltString::generate` draws from `OsRng`, and gives the PHC string.
/// The salt is drawn at random, so the string itself is not stated. Stated:
/// hashing fails exactly for passwords longer than `argon2::MAX_PWD_LEN`
/// bytes (a generated salt is 16 bytes, within argon2's salt limits, and the
/// default parameters are valid), and, as argon2's documentation shows, the
/// string parses with `PasswordHash::new` and `verify_password` accepts the
/// password against it. Left unsaid: `OsRng` panics when the operating
/// system cannot supply random bytes, which no argument decides.
#[verifier::external_body]
pub(crate) fn hash_with_fresh_salt(password: &str) -> (phc: Option<String>)
    ensures
        phc is Some <==> hashable_password(password@),
        phc matches Some(h) ==> phc_well_formed(h@) && argon2_accepts(password@, h@),
{
    let salt = SaltString::generate(&mut OsRng);
    match Argon2::default().hash_password(password.as_bytes(), &salt) {
        Ok(hash) => Some(hash.to_string()),
        Err(_) => None,
    }
}

/// `PasswordHash::new(phc).is_ok()`: whether `phc` reads as a PHC string.
#[verifier::external_body]
pub(crate) fn phc_parses(phc: &str) -> (parses: bool)
    ensures
        parses == phc_well_formed(phc@),
{
    PasswordHash::new(phc).is_ok()
}

/// `Argon2::default().verify_password(password.as_bytes(), &PasswordHash::new(phc)?)`
/// read as a yes or no: whether the password matches the stored PHC string.
/// It is called only on strings that `PasswordHash::new` reads.
#[verifier::external_body]
pub(crate) fn argon2_verify(password: &str, phc: &str) -> (accepted: bool)
    requires
        phc_well_formed(phc@),
    ensures
        accepted == argon2_accepts(password@, phc@),
{
    match PasswordHash::new(phc) {
        Ok(hash) => Argon2::default().verify_password(password.as_bytes(), &hash).is_ok(),
        Err(_) => false,
    }
}

} // verus!
