//! The envelope codec: the fixed binary layout of an encrypted file.
//!
//! An envelope is `magic(8) ‖ version(1) ‖ salt(16) ‖ nonce(12) ‖
//! original_size(8, little-endian) ‖ ciphertext ‖ tag(16)`, a 45-byte header
//! followed by the AEAD output. This module owns the offset arithmetic and
//! byte-order conversion; it carries no cryptographic logic.

use vstd::prelude::*;

verus! {

use vstd::bytes::spec_u64_to_le_bytes;
use vstd::bytes::spec_u64_from_le_bytes;

/// Length of the fixed envelope header:
/// magic(8) + version(1) + salt(16) + nonce(12) + original_size(8).
pub const HEADER_SIZE: usize = 45;

/// The one format version this library reads and writes.
pub const FORMAT_VERSION: u8 = 1;

/// Length of the random per-file salt stored in the header.
pub const SALT_LEN: usize = 16;

/// Length of the AEAD nonce stored in the header.
pub const NONCE_LEN: usize = 12;

/// Length of the authentication tag appended to the ciphertext.
pub const TAG_LEN: usize = 16;

/// The eight magic bytes that open every envelope: the ASCII text `SOLIDROP`.
pub open spec fn spec_magic() -> Seq<u8> {
    seq![0x53u8, 0x4fu8, 0x4cu8, 0x49u8, 0x44u8, 0x52u8, 0x4fu8, 0x50u8]
}

/// The magic marker as bytes, for callers that inspect raw envelopes.
pub fn magic_bytes() -> (r: Vec<u8>)
    ensures
        r@ == spec_magic(),
{
    let mut v: Vec<u8> = Vec::new();
    v.push(0x53);
    v.push(0x4f);
    v.push(0x4c);
    v.push(0x49);
    v.push(0x44);
    v.push(0x52);
    v.push(0x4f);
    v.push(0x50);
    proof {
        assert(v@ =~= spec_magic());
    }
    v
}

/// The header bytes for the given salt, nonce and declared plaintext size.
pub open spec fn spec_header(salt: Seq<u8>, nonce: Seq<u8>, original_size: u64) -> Seq<u8> {
    spec_magic() + seq![FORMAT_VERSION] + salt + nonce + spec_u64_to_le_bytes(original_size)
}

/// A whole envelope: header followed by the AEAD payload (ciphertext ‖ tag).
pub open spec fn spec_envelope(
    salt: Seq<u8>,
    nonce: Seq<u8>,
    original_size: u64,
    payload: Seq<u8>,
) -> Seq<u8> {
    spec_header(salt, nonce, original_size) + payload
}

/// Whether the fixed header is acceptable: long enough, the right magic
/// marker, and a supported format version.
pub open spec fn header_well_formed(env: Seq<u8>) -> bool {
    &&& env.len() >= HEADER_SIZE
    &&& env.subrange(0, 8) == spec_magic()
    &&& env[8] == FORMAT_VERSION
}

/// The salt field of an envelope.
pub open spec fn env_salt(env: Seq<u8>) -> Seq<u8> {
    env.subrange(9, 25)
}

/// The nonce field of an envelope.
pub open spec fn env_nonce(env: Seq<u8>) -> Seq<u8> {
    env.subrange(25, 37)
}

/// The declared original plaintext size of an envelope.
pub open spec fn env_size(env: Seq<u8>) -> u64 {
    spec_u64_from_le_bytes(env.subrange(37, 45))
}

/// Everything after the header: ciphertext followed by the tag.
pub open spec fn env_payload(env: Seq<u8>) -> Seq<u8> {
    env.skip(45)
}

/// A well-formed envelope built from its four parts takes its fields back
/// apart exactly: the codec round-trips.
pub proof fn lemma_envelope_fields(
    salt: Seq<u8>,
    nonce: Seq<u8>,
    original_size: u64,
    payload: Seq<u8>,
)
    requires
        salt.len() == SALT_LEN,
        nonce.len() == NONCE_LEN,
    ensures
        header_well_formed(spec_envelope(salt, nonce, original_size, payload)),
        env_salt(spec_envelope(salt, nonce, original_size, payload)) == salt,
        env_nonce(spec_envelope(salt, nonce, original_size, payload)) == nonce,
        env_size(spec_envelope(salt, nonce, original_size, payload)) == original_size,
        env_payload(spec_envelope(salt, nonce, original_size, payload)) == payload,
        spec_envelope(salt, nonce, original_size, payload).len() == HEADER_SIZE + payload.len(),
{
    let env = spec_envelope(salt, nonce, original_size, payload);
    vstd::bytes::lemma_auto_spec_u64_to_from_le_bytes();
    assert(spec_u64_to_le_bytes(original_size).len() == 8);
    assert(env.subrange(0, 8) =~= spec_magic());
    assert(env_salt(env) =~= salt);
    assert(env_nonce(env) =~= nonce);
    assert(env.subrange(37, 45) =~= spec_u64_to_le_bytes(original_size));
    assert(env_payload(env) =~= payload);
}

} // verus!
