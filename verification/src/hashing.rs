use vstd::prelude::*;

verus! {

/// The encoded hash that the argon2 key-derivation function produces for a
/// given password and salt, with the library's fixed cost parameters. The
/// result is a function of the password and the salt alone.
pub uninterp spec fn encoded_hash_of(password: Seq<char>, salt: Seq<u8>) -> Seq<char>;

/// Whether password verification accepts `candidate` against the stored
/// encoded hash `encoded`. A malformed `encoded` is never accepted.
pub uninterp spec fn verifies(encoded: Seq<char>, candidate: Seq<char>) -> bool;

/// Relies on argon2::hash_encoded with Config::original(): a salted,
/// memory-hard hash, deterministic in (password, salt), which returns Ok
/// whenever the salt is 8..=u32::MAX bytes and the password is at most
/// u32::MAX bytes. Its output verifies against the password that produced
/// it (argon2::verify_encoded's documented round trip).
#[verifier::external_body]
fn argon2_hash(password: &str, salt: &[u8]) -> (r: String)
    requires
        8 <= salt@.len() <= 0xFFFF_FFFFusize,
        password@.len() < 0x4000_0000usize,
    ensures
        r@ == encoded_hash_of(password@, salt@),
        verifies(r@, password@),
{
    argon2::hash_encoded(password.as_bytes(), salt, &argon2::Config::original()).unwrap()
}

/// Relies on argon2::verify_encoded: recomputes the hash from the salt and
/// parameters embedded in `encoded` and returns whether it matches; an error
/// (malformed or unsupported `encoded`) is reported as a non-match.
#[verifier::external_body]
fn argon2_verify(encoded: &str, candidate: &str) -> (r: bool)
    ensures
        r == verifies(encoded@, candidate@),
{
    argon2::verify_encoded(encoded, candidate.as_bytes()).unwrap_or(false)
}

/// Relies on uuid::Uuid::new_v4: 16 bytes drawn from a cryptographically
/// secure random source, used here as a fresh salt.
#[verifier::external_body]
fn new_salt() -> (r: Vec<u8>)
    ensures
        r@.len() == 16,
{
    uuid::Uuid::new_v4().as_bytes().to_vec()
}

/// One-way hash of a plaintext password under a freshly drawn random salt.
///
/// The returned encoded hash always verifies against the password it was
/// produced from; because the salt is embedded in the result, two calls on
/// the same password may return different strings.
pub fn hash(password: &str) -> (r: String)
    requires
        password@.len() < 0x4000_0000usize,
    ensures
        verifies(r@, password@),
        exists|salt: Seq<u8>| r@ == encoded_hash_of(password@, salt),
{
    let salt = new_salt();
    argon2_hash(password, salt.as_slice())
}

/// Checks a candidate password against a stored encoded hash. Returns true
/// exactly when the candidate matches; a malformed stored hash yields false
/// rather than an error.
pub fn verify(encoded: &str, candidate: &str) -> (r: bool)
    ensures
        r == verifies(encoded@, candidate@),
{
    argon2_verify(encoded, candidate)
}

} // verus!
