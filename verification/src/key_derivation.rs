//! The key-derivation hierarchy: an optional password→master-key stretch, the
//! master-key→per-file-key expansion bound to a random salt, and the salt
//! generator.
//!
//! The master key is never used directly as an AEAD key: every seal and open
//! derives an ephemeral file key from the master key and the envelope's salt,
//! so that no file key compromises the master key or any other file key.

use argon2::Argon2;
use hkdf::Hkdf;
use rand::RngCore;
use sha2::Sha256;
use vstd::prelude::*;

verus! {

use crate::error::CryptoError;

/// The 32 bytes that Argon2id (the crate's default algorithm, version and
/// cost parameters) derives from a password and a salt: a function of the
/// two inputs alone, the same in every process and on every machine.
pub uninterp spec fn argon2id_of(password: Seq<u8>, salt: Seq<u8>) -> Seq<u8>;

/// The 32 bytes that HKDF-SHA256 expands from the master key, with the file
/// salt as extraction salt and this library's fixed context label as the
/// info string: a function of the two inputs alone.
pub uninterp spec fn file_key_of(master_key: Seq<u8>, file_salt: Seq<u8>) -> Seq<u8>;

/// Derive a 256-bit master key from a password using Argon2id.
///
/// Relies on `argon2::Argon2::hash_password_into` with the crate's default
/// parameters: the result is deterministic in password and salt, and with a
/// 16-byte salt and a 32-byte output the call succeeds for every password of
/// at most 0xFFFFFFFF bytes, failing otherwise with a parameter error.
#[verifier::external_body]
pub fn derive_master_key(password: &[u8], salt: &[u8; 16]) -> (r: Result<[u8; 32], CryptoError>)
    ensures
        password@.len() <= 0xFFFFFFFF ==> r is Ok,
        r matches Ok(k) ==> k@ == argon2id_of(password@, salt@),
        r matches Err(e) ==> e matches CryptoError::KeyDerivationFailed(_),
{
    let mut master_key = [0u8; 32];
    Argon2::default()
        .hash_password_into(password, salt, &mut master_key)
        .map_err(|e| CryptoError::KeyDerivationFailed(e.to_string()))?;
    Ok(master_key)
}

/// Derive a per-file encryption key from the master key using HKDF-SHA256,
/// with the file salt as the extraction salt and a fixed, versioned context
/// label as the expansion info string.
///
/// Relies on `hkdf::Hkdf::<Sha256>::new` and `expand`: deterministic in the
/// key material and salt, and infallible for a 32-byte output, which is well
/// within HKDF's limit of 255 hash blocks.
#[verifier::external_body]
pub fn derive_file_key(master_key: &[u8; 32], file_salt: &[u8]) -> (r: Result<[u8; 32], CryptoError>)
    ensures
        r is Ok,
        r matches Ok(k) ==> k@ == file_key_of(master_key@, file_salt@),
{
    let hkdf = Hkdf::<Sha256>::new(Some(file_salt), master_key);
    let mut file_key = [0u8; 32];
    hkdf.expand(b"artsync-file-encryption", &mut file_key)
        .map_err(|e| CryptoError::KeyDerivationFailed(e.to_string()))?;
    Ok(file_key)
}

/// Fresh cryptographically secure random bytes.
///
/// Relies on `rand::thread_rng` (a CSPRNG) and `rand::RngCore::fill_bytes`:
/// nothing is assumed of the values, only that the requested number of bytes
/// comes back.
#[verifier::external_body]
pub(crate) fn fill_random(n: usize) -> (r: Vec<u8>)
    ensures
        r@.len() == n,
{
    let mut buf = vec![0u8; n];
    rand::thread_rng().fill_bytes(&mut buf);
    buf
}

/// Generate a random 16-byte file salt.
pub fn generate_salt() -> (r: Vec<u8>)
    ensures
        r@.len() == 16,
{
    fill_random(16)
}

} // verus!
