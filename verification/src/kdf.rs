//! Password-based key derivation (PBKDF2 with HMAC-SHA512, from `ring`):
//! a random salt, a derived key, and the check that the key verifies.
use vstd::prelude::*;
use ring::rand::SecureRandom;
use vstd::utf8::encode_utf8;

verus! {

/// Length in bytes of a derived key and of a salt: the SHA-512 output length.
pub const CREDENTIAL_LEN: usize = 64;

/// Iteration count of the derivation.
pub const PBKDF2_ITERATIONS: u32 = 100_000;

/// The key of `len` bytes that PBKDF2 with HMAC-SHA512 derives from the
/// iteration count, the salt and the secret.
pub uninterp spec fn pbkdf2_hmac_sha512(iterations: u32, salt: Seq<u8>, secret: Seq<u8>, len: nat) -> Seq<u8>;

/// Derives a key with `ring::pbkdf2::derive` and `PBKDF2_HMAC_SHA512`,
/// filling `out`.
///
/// Claimed of the outside function: `out` keeps its length and is filled
/// with the PBKDF2-HMAC-SHA512 key of that length for these inputs (what
/// `out` held before does not matter: it is cleared first). It panics only
/// when `out` is longer than `u32::MAX` SHA-512 outputs, which `requires`
/// rules out, or for inputs too large for the digest.
#[verifier::external_body]
fn pbkdf2_derive(iterations: u32, salt: &[u8], secret: &[u8], out: &mut Vec<u8>)
    requires
        iterations > 0,
        old(out)@.len() <= u32::MAX * 64,
    ensures
        final(out)@.len() == old(out)@.len(),
        final(out)@ == pbkdf2_hmac_sha512(iterations, salt@, secret@, old(out)@.len()),
{
    let iterations = std::num::NonZeroU32::new(iterations).unwrap();
    ring::pbkdf2::derive(ring::pbkdf2::PBKDF2_HMAC_SHA512, iterations, salt, secret, out.as_mut_slice())
}

/// Checks a key with `ring::pbkdf2::verify` and `PBKDF2_HMAC_SHA512`.
///
/// Claimed of the outside function: it succeeds exactly when
/// `previously_derived` is not empty and equals the key of its length that
/// `derive` gives for the same inputs (it derives block by block as
/// `derive` does and compares).
#[verifier::external_body]
fn pbkdf2_verify(iterations: u32, salt: &[u8], secret: &[u8], previously_derived: &[u8]) -> (ok: bool)
    requires
        iterations > 0,
        previously_derived@.len() <= u32::MAX * 64,
    ensures
        ok == (previously_derived@.len() > 0 && previously_derived@ == pbkdf2_hmac_sha512(
            iterations,
            salt@,
            secret@,
            previously_derived@.len(),
        )),
{
    let iterations = std::num::NonZeroU32::new(iterations).unwrap();
    ring::pbkdf2::verify(ring::pbkdf2::PBKDF2_HMAC_SHA512, iterations, salt, secret, previously_derived).is_ok()
}

#[verifier::external_type_specification]
#[verifier::external_body]
pub struct ExSystemRandom(ring::rand::SystemRandom);

/// The operating system's random source, `ring::rand::SystemRandom::new()`.
#[verifier::external_body]
pub(crate) fn system_random() -> ring::rand::SystemRandom {
    ring::rand::SystemRandom::new()
}

/// Fills `dest` with random bytes with `SecureRandom::fill` of
/// `ring::rand::SystemRandom`.
///
/// Claimed of the outside function: `dest` keeps its length; whether it
/// succeeded is returned. The bytes themselves are random, so nothing is
/// claimed of them.
#[verifier::external_body]
pub(crate) fn fill_random(rng: &ring::rand::SystemRandom, dest: &mut Vec<u8>) -> (ok: bool)
    ensures
        final(dest)@.len() == old(dest)@.len(),
{
    rng.fill(dest.as_mut_slice()).is_ok()
}

/// A fresh random salt of `CREDENTIAL_LEN` bytes, or `None` when the
/// random source failed.
pub fn fresh_salt() -> (salt: Option<Vec<u8>>)
    ensures
        salt matches Some(s) ==> s@.len() == CREDENTIAL_LEN,
{
    let rng = system_random();
    let mut salt = vec![0u8; CREDENTIAL_LEN];
    let filled = fill_random(&rng, &mut salt);
    salt_from_fill(filled, salt)
}

/// The salt once the random source has filled `buffer`: the buffer itself
/// when the source reported success, `None` when it reported a failure.
pub fn salt_from_fill(filled: bool, buffer: Vec<u8>) -> (salt: Option<Vec<u8>>)
    ensures
        filled ==> salt == Some(buffer),
        !filled ==> salt is None,
{
    if filled {
        Some(buffer)
    } else {
        None
    }
}

/// Derives a `CREDENTIAL_LEN`-byte key from the salt and the secret, then
/// checks it: the key is the PBKDF2-HMAC-SHA512 key of those inputs, and the
/// check always succeeds.
pub fn derive_and_verify(salt: &[u8], secret: &[u8]) -> (res: (Vec<u8>, bool))
    ensures
        res.0@ == pbkdf2_hmac_sha512(PBKDF2_ITERATIONS, salt@, secret@, CREDENTIAL_LEN as nat),
        res.0@.len() == CREDENTIAL_LEN,
        res.1,
{
    let mut hash = vec![0u8; CREDENTIAL_LEN];
    pbkdf2_derive(PBKDF2_ITERATIONS, salt, secret, &mut hash);
    let ok = pbkdf2_verify(PBKDF2_ITERATIONS, salt, secret, hash.as_slice());
    (hash, ok)
}

/// The check a signin runs: derive the key of the phrase "Guess Me If You
/// Can!" with the salt, then verify it.
pub fn signin_self_check(salt: &[u8]) -> (res: (Vec<u8>, bool))
    ensures
        res.0@ == pbkdf2_hmac_sha512(
            PBKDF2_ITERATIONS,
            salt@,
            encode_utf8("Guess Me If You Can!"@),
            CREDENTIAL_LEN as nat,
        ),
        res.1,
{
    let phrase = "Guess Me If You Can!";
    derive_and_verify(salt, phrase.as_bytes())
}

} // verus!
