//! Password hashing: Argon2 encodings with a fresh random salt.
//!
//! An encoding is a string that carries the algorithm, its parameters, the
//! salt and the digest, so a candidate password can be checked against it
//! with nothing else at hand.
//!
//! The Argon2 computation itself is the `argon2` crate's and is not verified
//! here. Its results appear in contracts under two names,
//! [`argon2_encoding`] and [`argon2_verdict`]; everything this module states
//! about them is listed on the two private functions that make the calls.

use rand::Rng;
use vstd::prelude::*;

verus! {

/// Number of random bytes in the salt of every new hash.
pub const SALT_LEN: usize = 32;

/// Shortest salt Argon2 takes, in bytes.
pub const MIN_SALT_LEN: usize = 8;

/// Longest salt Argon2 takes, in bytes.
pub const MAX_SALT_LEN: usize = 0xFFFF_FFFF;

/// Longest password Argon2 takes, in bytes.
pub const MAX_PASSWORD_LEN: usize = 0xFFFF_FFFF;

/// `argon2::Error`, the error of the `argon2` crate's functions. Nothing is
/// known of a value of it here: it is carried from the call to the `match`
/// that drops it.
#[verifier::external_type_specification]
#[verifier::external_body]
pub struct ExArgon2Error(argon2::Error);

/// The encoding that `argon2::hash_encoded` returns for a password and a
/// salt under `argon2::Config::default()`, or `None` where it returns an
/// error.
pub uninterp spec fn argon2_encoding(password: Seq<u8>, salt: Seq<u8>) -> Option<Seq<char>>;

/// What `argon2::verify_encoded` returns for an encoding and a password:
/// whether the digest recomputed from the password equals the one in the
/// encoding, or `None` where it returns an error (the encoding cannot be
/// parsed, or holds parameters that Argon2 refuses).
pub uninterp spec fn argon2_verdict(encoding: Seq<char>, password: Seq<u8>) -> Option<bool>;

/// Whether Argon2 can hash a password of these bytes.
pub open spec fn hashable(password: Seq<u8>) -> bool {
    password.len() <= MAX_PASSWORD_LEN
}

/// Whether Argon2 takes these bytes as a salt.
pub open spec fn usable_salt(salt: Seq<u8>) -> bool {
    MIN_SALT_LEN <= salt.len() <= MAX_SALT_LEN
}

/// Whether Argon2 hashes this password under this salt.
pub open spec fn encodable(password: Seq<u8>, salt: Seq<u8>) -> bool {
    hashable(password) && usable_salt(salt)
}

/// Whether `encoding` verifies `password`.
pub open spec fn accepts(encoding: Seq<char>, password: Seq<u8>) -> bool {
    argon2_verdict(encoding, password) == Some(true)
}

/// What holds of an encoding that was just made for `password`: it is the
/// Argon2 encoding of the password under some salt of [`SALT_LEN`] bytes,
/// it is not empty, and it verifies the password.
pub open spec fn fresh_hash(encoding: Seq<char>, password: Seq<u8>) -> bool {
    &&& exists|salt: Seq<u8>|
        salt.len() == SALT_LEN && #[trigger] argon2_encoding(password, salt) == Some(encoding)
    &&& encoding.len() > 0
    &&& accepts(encoding, password)
}

/// Calls `argon2::hash_encoded` with the default configuration.
///
/// Trusted, not proved:
/// * the result is a function of the password and the salt alone, named
///   [`argon2_encoding`];
/// * the call fails exactly when the password is longer than
///   [`MAX_PASSWORD_LEN`] or the salt's length is outside
///   [`MIN_SALT_LEN`]`..=`[`MAX_SALT_LEN`] (the default configuration passes
///   every other check that `argon2` makes before hashing);
/// * an encoding is never empty (it starts with `$argon2id$`);
/// * `argon2::verify_encoded` accepts the password for the encoding made
///   from it, which is the round trip that the crate's documentation opens
///   with.
#[verifier::external_body]
fn argon2_hash_encoded(password: &[u8], salt: &[u8]) -> (r: Result<String, argon2::Error>)
    ensures
        r matches Ok(encoding) ==> argon2_encoding(password@, salt@) == Some(encoding@),
        r is Err ==> argon2_encoding(password@, salt@) is None,
        r is Ok <==> encodable(password@, salt@),
        r matches Ok(encoding) ==> encoding@.len() > 0,
        r matches Ok(encoding) ==> accepts(encoding@, password@),
{
    argon2::hash_encoded(password, salt, &argon2::Config::default())
}

/// Calls `argon2::verify_encoded`.
///
/// Trusted, not proved: the result is a function of the encoding and the
/// password alone, named [`argon2_verdict`]. How much memory and time the
/// call takes is for the encoding's own parameters to say.
#[verifier::external_body]
fn argon2_verify_encoded(encoding: &str, password: &[u8]) -> (r: Result<bool, argon2::Error>)
    ensures
        r matches Ok(matches) ==> argon2_verdict(encoding@, password@) == Some(matches),
        r is Err ==> argon2_verdict(encoding@, password@) is None,
{
    argon2::verify_encoded(encoding, password)
}

/// Draws [`SALT_LEN`] bytes from `rand::thread_rng()`.
///
/// Nothing is promised of the bytes. The generator is seeded from the
/// operating system on a thread's first draw and panics if that fails.
#[verifier::external_body]
fn random_salt() -> (salt: [u8; SALT_LEN]) {
    rand::thread_rng().gen::<[u8; SALT_LEN]>()
}

/// Hashes `password` with the given salt.
///
/// Returns the Argon2 encoding of the pair, and `None` exactly when Argon2
/// refuses the password's or the salt's length.
pub fn hash_with_salt(password: &[u8], salt: &[u8]) -> (encoding: Option<String>)
    ensures
        encoding matches Some(e) ==> argon2_encoding(password@, salt@) == Some(e@),
        encoding is None ==> argon2_encoding(password@, salt@) is None,
        encoding is Some <==> encodable(password@, salt@),
        encoding matches Some(e) ==> e@.len() > 0 && accepts(e@, password@),
{
    match argon2_hash_encoded(password, salt) {
        Ok(encoding) => Some(encoding),
        Err(_) => None,
    }
}

/// Hashes `password` under a freshly drawn salt of [`SALT_LEN`] bytes.
///
/// The encoding returned verifies `password`. Two calls on one password
/// draw two salts, so their encodings differ unless the generator repeats
/// itself.
pub fn hash(password: &[u8]) -> (encoding: String)
    requires
        hashable(password@),
    ensures
        fresh_hash(encoding@, password@),
        accepts(encoding@, password@),
{
    let salt = random_salt();
    let encoding = hash_with_salt(password, salt.as_slice());
    encoding.unwrap()
}

/// Checks `password` against the encoding `hash`.
///
/// Returns `true` exactly when Argon2 parses the encoding and finds the
/// password's digest in it. An encoding that cannot be parsed gives `false`,
/// as a wrong password does.
pub fn verify(hash: &str, password: &[u8]) -> (ok: bool)
    ensures
        ok == accepts(hash@, password@),
{
    match argon2_verify_encoded(hash, password) {
        Ok(matches) => matches,
        Err(_) => false,
    }
}

/// A password verifies against every encoding freshly made for it.
pub proof fn lemma_fresh_hash_verifies(encoding: Seq<char>, password: Seq<u8>)
    requires
        fresh_hash(encoding, password),
    ensures
        accepts(encoding, password),
{
}

} // verus!
