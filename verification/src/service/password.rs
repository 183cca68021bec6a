//! The password hasher: a salted, memory-hard, one-way hash, and the check of
//! a password against such a hash.

use vstd::prelude::*;

verus! {

/// Hashing failed: the salt could not be drawn or the hash function gave up.
/// Nothing about the password follows from it.
#[derive(Debug, Clone, Copy, PartialEq, Eq, Structural)]
pub struct HashFailure;

/// The error type of the `password-hash` crate, carried from its calls to the
/// place where it is dropped.
#[verifier::external_type_specification]
#[verifier::external_body]
pub struct ExPasswordHashError(password_hash::Error);

/// Whether `hash` parses as a hash string (`PasswordHash::new`) and Argon2
/// with its default settings, run on `password` with the salt and the
/// parameters that the hash string names, gives the digest that the hash
/// string holds (`verify_password`).
pub uninterp spec fn argon2_accepts(password: Seq<char>, hash: Seq<char>) -> bool;

/// What every hash string of this library begins with: the algorithm
/// (Argon2id), its version and its parameters (19 MiB of memory, 2 passes, 1
/// lane).  The salt and the digest follow.
pub open spec fn hash_header() -> Seq<char> {
    "$argon2id$v=19$m=19456,t=2,p=1$"@
}

/// Hashes `password` with `Argon2::default().hash_password` under a salt
/// fresh from `SaltString::generate(&mut OsRng)`, and writes the result out
/// as a hash string.
///
/// Believed, not proved: a hash string that comes back is one that
/// [`argon2_accepts`] for the same password, and it begins by naming the
/// algorithm and the parameters of `Argon2::default()`.  The salt is random,
/// so two calls need not agree and nothing else is said of the string.
#[verifier::external_body]
fn argon2_hash(password: &str) -> (r: Result<String, password_hash::Error>)
    ensures
        r matches Ok(hash) ==> argon2_accepts(password@, hash@) && hash_header().is_prefix_of(
            hash@,
        ),
{
    let salt = password_hash::SaltString::generate(&mut password_hash::rand_core::OsRng);
    let argon2 = argon2::Argon2::default();
    let hash = argon2::PasswordHasher::hash_password(&argon2, password.as_bytes(), &salt)?;
    Ok(hash.to_string())
}

/// Parses `hash` with `PasswordHash::new` and checks `password` against it
/// with `Argon2::default().verify_password`.
///
/// Believed, not proved: the outcome is a function of the two strings, and
/// `Ok` is the case that [`argon2_accepts`] names.
#[verifier::external_body]
fn argon2_verify(password: &str, hash: &str) -> (r: Result<(), password_hash::Error>)
    ensures
        r is Ok <==> argon2_accepts(password@, hash@),
{
    let parsed = password_hash::PasswordHash::new(hash)?;
    let argon2 = argon2::Argon2::default();
    password_hash::PasswordVerifier::verify_password(&argon2, password.as_bytes(), &parsed)
}

/// Hashes `password` under a fresh random salt.
///
/// The result names the algorithm, its parameters and the salt beside the
/// digest, so that [`verify`] needs nothing but the string; and it is a hash
/// of `password`, whatever the password: `verify(password, &hash)` holds.
pub fn hash(password: &str) -> (r: Result<String, HashFailure>)
    ensures
        r matches Ok(hash) ==> argon2_accepts(password@, hash@) && hash_header().is_prefix_of(
            hash@,
        ),
{
    hash_outcome(argon2_hash(password))
}

/// What [`hash`] makes of what the hash function came back with: the hash
/// string as it is, and one failure for every error, whatever it says.
pub fn hash_outcome(hashed: Result<String, password_hash::Error>) -> (r: Result<
    String,
    HashFailure,
>)
    ensures
        r == match hashed {
            Ok(hash) => Ok::<String, HashFailure>(hash),
            Err(_) => Err(HashFailure),
        },
{
    match hashed {
        Ok(hash) => Ok(hash),
        Err(_) => Err(HashFailure),
    }
}

/// Whether `hash` is a hash string of `password`.
///
/// A wrong password and a string that is no hash string at all are both
/// `false`: the caller is not told which.
pub fn verify(password: &str, hash: &str) -> (ok: bool)
    ensures
        ok == argon2_accepts(password@, hash@),
{
    match argon2_verify(password, hash) {
        Ok(_) => true,
        Err(_) => false,
    }
}

} // verus!
