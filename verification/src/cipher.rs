//! The authenticated-encryption primitive behind sealing and opening:
//! AES-256-GCM with a 96-bit nonce and a 128-bit postfix tag.

use aes_gcm::aead::Aead;
use aes_gcm::aead::KeyInit;
use aes_gcm::Aes256Gcm;
use aes_gcm::Nonce;
use vstd::prelude::*;

verus! {

use crate::error::CryptoError;

/// What AES-256-GCM encryption produces for a key, nonce and plaintext:
/// `ciphertext ‖ tag`, a function of the three inputs alone.
pub uninterp spec fn aes_gcm_seal(key: Seq<u8>, nonce: Seq<u8>, plaintext: Seq<u8>) -> Seq<u8>;

/// What AES-256-GCM decryption recovers from a key, nonce and
/// `ciphertext ‖ tag` input: the plaintext when the tag verifies, nothing
/// otherwise. A function of the three inputs alone.
pub uninterp spec fn aes_gcm_open(key: Seq<u8>, nonce: Seq<u8>, ciphertext: Seq<u8>) -> Option<
    Seq<u8>,
>;

/// Relies on `aes_gcm::Aes256Gcm`: `Aead::encrypt` is deterministic in key,
/// nonce and plaintext, appends a 16-byte tag to an equal-length ciphertext,
/// succeeds for every plaintext of at most 2^36 bytes, and its output
/// decrypts back to exactly the plaintext under the same key and nonce.
#[verifier::external_body]
pub(crate) fn aes256_gcm_encrypt(key: &[u8; 32], nonce: &[u8], plaintext: &[u8]) -> (r: Result<
    Vec<u8>,
    CryptoError,
>)
    requires
        nonce@.len() == 12,
    ensures
        plaintext@.len() <= 0x10_0000_0000 ==> r is Ok,
        r matches Ok(ct) ==> ct@ == aes_gcm_seal(key@, nonce@, plaintext@) && ct@.len()
            == plaintext@.len() + 16 && aes_gcm_open(key@, nonce@, ct@) == Some(plaintext@),
        r matches Err(e) ==> e matches CryptoError::EncryptionFailed(_),
{
    let cipher = match Aes256Gcm::new_from_slice(key) {
        Ok(c) => c,
        Err(e) => return Err(CryptoError::EncryptionFailed(e.to_string())),
    };
    cipher
        .encrypt(Nonce::from_slice(nonce), plaintext)
        .map_err(|e| CryptoError::EncryptionFailed(e.to_string()))
}

/// Relies on `aes_gcm::Aes256Gcm`: `Aead::decrypt` is deterministic in key,
/// nonce and `ciphertext ‖ tag`, returns the plaintext exactly when the
/// recomputed tag matches the stored one, and fails otherwise — on a wrong
/// key, a tampered payload, or a payload shorter than the tag.
#[verifier::external_body]
pub(crate) fn aes256_gcm_decrypt(key: &[u8; 32], nonce: &[u8], ciphertext: &[u8]) -> (r: Result<
    Vec<u8>,
    CryptoError,
>)
    requires
        nonce@.len() == 12,
    ensures
        r matches Ok(pt) ==> aes_gcm_open(key@, nonce@, ciphertext@) == Some(pt@),
        r matches Err(e) ==> aes_gcm_open(key@, nonce@, ciphertext@) is None && e
            matches CryptoError::DecryptionFailed(_),
{
    let cipher = match Aes256Gcm::new_from_slice(key) {
        Ok(c) => c,
        Err(e) => return Err(CryptoError::DecryptionFailed(e.to_string())),
    };
    cipher
        .decrypt(Nonce::from_slice(nonce), ciphertext)
        .map_err(|e| CryptoError::DecryptionFailed(e.to_string()))
}

} // verus!
