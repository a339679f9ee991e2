//! The sealing engine: plaintext in, opaque envelope bytes out.

use vstd::prelude::*;

verus! {

use vstd::bytes::u64_to_le_bytes;
use crate::cipher::aes256_gcm_encrypt;
use crate::cipher::aes_gcm_seal;
use crate::codec::spec_envelope;
use crate::codec::magic_bytes;
use crate::codec::lemma_envelope_fields;
use crate::codec::FORMAT_VERSION;
use crate::codec::HEADER_SIZE;
use crate::codec::TAG_LEN;
use crate::decrypt::open_ok;
use crate::error::CryptoError;
use crate::key_derivation::derive_file_key;
use crate::key_derivation::fill_random;
use crate::key_derivation::file_key_of;
use crate::key_derivation::generate_salt;

/// Encrypt plaintext data using AES-256-GCM with a derived per-file key.
///
/// Generates a fresh random salt and nonce, derives the file key from the
/// master key and salt, seals the plaintext, and returns the full envelope:
/// header (magic bytes, version, salt, nonce, original size) followed by
/// ciphertext and authentication tag. Two calls over the same plaintext give
/// unlinkable envelopes, because salt and nonce are freshly randomized every
/// call; what is promised of each envelope is that it opens back to exactly
/// the sealed plaintext under the same master key.
pub fn encrypt(master_key: &[u8; 32], plaintext: &[u8]) -> (r: Result<Vec<u8>, CryptoError>)
    ensures
        plaintext@.len() <= 0x10_0000_0000 ==> r is Ok,
        r matches Ok(env) ==> env@.len() == HEADER_SIZE + plaintext@.len() + TAG_LEN,
        r matches Ok(env) ==> open_ok(master_key@, env@, plaintext@),
        r matches Ok(env) ==> (exists|salt: Seq<u8>, nonce: Seq<u8>|
            salt.len() == 16 && nonce.len() == 12 && env@ == spec_envelope(
                salt,
                nonce,
                plaintext@.len() as u64,
                aes_gcm_seal(file_key_of(master_key@, salt), nonce, plaintext@),
            )),
        r matches Err(e) ==> e matches CryptoError::EncryptionFailed(_),
{
    let salt = generate_salt();
    let file_key = match derive_file_key(master_key, salt.as_slice()) {
        Ok(k) => k,
        Err(e) => return Err(e),
    };

    let nonce = fill_random(12);
    let ciphertext = match aes256_gcm_encrypt(&file_key, nonce.as_slice(), plaintext) {
        Ok(ct) => ct,
        Err(e) => return Err(e),
    };

    let original_size: u64 = plaintext.len() as u64;

    let mut output = magic_bytes();
    output.push(FORMAT_VERSION);
    output.extend_from_slice(salt.as_slice());
    output.extend_from_slice(nonce.as_slice());
    let size_bytes = u64_to_le_bytes(original_size);
    output.extend_from_slice(size_bytes.as_slice());
    output.extend_from_slice(ciphertext.as_slice());

    proof {
        assert(output@ =~= spec_envelope(salt@, nonce@, original_size, ciphertext@));
        lemma_envelope_fields(salt@, nonce@, original_size, ciphertext@);
    }
    Ok(output)
}

} // verus!
