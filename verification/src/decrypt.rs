//! The opening engine: envelope bytes in, plaintext out — or a typed
//! failure, with no plaintext byte released before the whole envelope has
//! been validated.

use vstd::prelude::*;

verus! {

use vstd::bytes::u64_from_le_bytes;
use vstd::string::StringExecFns;
use crate::cipher::aes256_gcm_decrypt;
use crate::cipher::aes_gcm_open;
use crate::codec::env_nonce;
use crate::codec::env_payload;
use crate::codec::env_salt;
use crate::codec::env_size;
use crate::codec::header_well_formed;
use crate::codec::magic_bytes;
use crate::codec::FORMAT_VERSION;
use crate::codec::HEADER_SIZE;
use crate::error::CryptoError;
use crate::key_derivation::derive_file_key;
use crate::key_derivation::file_key_of;

/// The fields a well-formed envelope header parses into, together with the
/// borrowed remainder of the envelope (ciphertext followed by the tag).
pub struct ParsedHeader<'a> {
    pub salt: Vec<u8>,
    pub nonce: Vec<u8>,
    pub original_size: u64,
    pub ciphertext: &'a [u8],
}

/// What it means for envelope bytes `env` to open to plaintext `pt` under
/// master key `mk`: the fixed header is well formed, AES-256-GCM recovers
/// `pt` from the payload under the file key derived from `mk` and the
/// header's salt, using the header's nonce, and `pt`'s length equals the
/// header's declared original size.
pub open spec fn open_ok(mk: Seq<u8>, env: Seq<u8>, pt: Seq<u8>) -> bool {
    &&& header_well_formed(env)
    &&& aes_gcm_open(file_key_of(mk, env_salt(env)), env_nonce(env), env_payload(env)) == Some(pt)
    &&& pt.len() == env_size(env)
}

/// The error kind `decrypt` owes for envelope bytes it rejects:
/// `InvalidHeader` exactly when the fixed header is unacceptable, and
/// `DecryptionFailed` exactly when the header is fine but no plaintext opens
/// the envelope — a wrong key, a tampered payload, or a size cross-check
/// failure, deliberately undistinguished.
pub open spec fn open_err(mk: Seq<u8>, env: Seq<u8>, e: CryptoError) -> bool {
    match e {
        CryptoError::InvalidHeader(_) => !header_well_formed(env),
        CryptoError::DecryptionFailed(_) => header_well_formed(env) && (forall|pt: Seq<u8>|
            !open_ok(mk, env, pt)),
        _ => false,
    }
}

/// Split an envelope into its header fields and its payload.
///
/// Succeeds exactly on a well-formed fixed header — long enough, the right
/// magic marker, a supported version — and then returns the header's fields
/// verbatim; everything else is rejected as `InvalidHeader`.
pub fn parse_header<'a>(data: &'a [u8]) -> (r: Result<ParsedHeader<'a>, CryptoError>)
    ensures
        r is Ok <==> header_well_formed(data@),
        r matches Ok(h) ==> h.salt@ == env_salt(data@) && h.nonce@ == env_nonce(data@)
            && h.original_size == env_size(data@) && h.ciphertext@ == env_payload(data@),
        r matches Err(e) ==> e matches CryptoError::InvalidHeader(_),
{
    if data.len() < HEADER_SIZE {
        return Err(CryptoError::InvalidHeader(String::from_str("file too short")));
    }

    let magic = magic_bytes();
    let mut i: usize = 0;
    while i < 8
        invariant
            i <= 8,
            data@.len() >= HEADER_SIZE,
            magic@ == crate::codec::spec_magic(),
            forall|j: int| 0 <= j < i ==> data@[j] == magic@[j],
        decreases 8 - i,
    {
        if data[i] != magic[i] {
            return Err(CryptoError::InvalidHeader(String::from_str("invalid magic bytes")));
        }
        i += 1;
    }
    proof {
        assert(data@.subrange(0, 8) =~= crate::codec::spec_magic());
    }

    if data[8] != FORMAT_VERSION {
        return Err(CryptoError::InvalidHeader(String::from_str("unsupported version")));
    }

    let mut salt: Vec<u8> = Vec::new();
    let mut i: usize = 9;
    while i < 25
        invariant
            9 <= i <= 25,
            data@.len() >= HEADER_SIZE,
            salt@ == data@.subrange(9, i as int),
        decreases 25 - i,
    {
        salt.push(data[i]);
        proof {
            assert(salt@ =~= data@.subrange(9, i + 1));
        }
        i += 1;
    }

    let mut nonce: Vec<u8> = Vec::new();
    let mut i: usize = 25;
    while i < 37
        invariant
            25 <= i <= 37,
            data@.len() >= HEADER_SIZE,
            nonce@ == data@.subrange(25, i as int),
        decreases 37 - i,
    {
        nonce.push(data[i]);
        proof {
            assert(nonce@ =~= data@.subrange(25, i + 1));
        }
        i += 1;
    }

    let original_size = u64_from_le_bytes(&data[37..45]);
    let (_, ciphertext) = data.split_at(HEADER_SIZE);
    proof {
        assert(ciphertext@ =~= env_payload(data@));
    }

    Ok(ParsedHeader { salt, nonce, original_size, ciphertext })
}

/// Decrypt an encrypted file using the master key.
///
/// Validates the fixed header, derives the file key from the master key and
/// the header's salt, verifies the authentication tag while decrypting, and
/// cross-checks the plaintext's length against the header's declared
/// original size. Succeeds exactly when some plaintext opens the envelope,
/// and then returns that plaintext; a short, foreign or unsupported header
/// is `InvalidHeader`, and every later failure — wrong key, tampering, size
/// mismatch — is the one kind `DecryptionFailed`.
pub fn decrypt(master_key: &[u8; 32], encrypted_data: &[u8]) -> (r: Result<Vec<u8>, CryptoError>)
    ensures
        r is Ok <==> exists|pt: Seq<u8>| open_ok(master_key@, encrypted_data@, pt),
        r matches Ok(pt) ==> open_ok(master_key@, encrypted_data@, pt@),
        r matches Err(e) ==> open_err(master_key@, encrypted_data@, e),
        encrypted_data@.len() < HEADER_SIZE ==> r matches Err(CryptoError::InvalidHeader(_)),
        !header_well_formed(encrypted_data@) ==> r matches Err(CryptoError::InvalidHeader(_)),
{
    let header = match parse_header(encrypted_data) {
        Ok(h) => h,
        Err(e) => return Err(e),
    };

    let file_key = match derive_file_key(master_key, header.salt.as_slice()) {
        Ok(k) => k,
        Err(e) => return Err(e),
    };

    let plaintext = match aes256_gcm_decrypt(&file_key, header.nonce.as_slice(), header.ciphertext)
        {
        Ok(p) => p,
        Err(e) => {
            proof {
                assert forall|pt: Seq<u8>| !open_ok(master_key@, encrypted_data@, pt) by {
                    assert(aes_gcm_open(
                        file_key_of(master_key@, env_salt(encrypted_data@)),
                        env_nonce(encrypted_data@),
                        env_payload(encrypted_data@),
                    ) is None);
                }
            }
            return Err(e);
        },
    };

    if plaintext.len() as u64 != header.original_size {
        proof {
            assert forall|pt: Seq<u8>| !open_ok(master_key@, encrypted_data@, pt) by {
                if open_ok(master_key@, encrypted_data@, pt) {
                    assert(Some(pt) == Some(plaintext@));
                }
            }
        }
        return Err(
            CryptoError::DecryptionFailed(
                String::from_str("size mismatch between header and plaintext"),
            ),
        );
    }

    proof {
        assert(open_ok(master_key@, encrypted_data@, plaintext@));
    }
    Ok(plaintext)
}

/// Tampering with the header's declared size defeats opening: take a valid
/// envelope that opens to some plaintext, rewrite its size field to any
/// other value without re-sealing, and no plaintext opens the altered
/// envelope any more — the size cross-check rejects it even though the
/// authentication tag still verifies.
pub proof fn lemma_size_tamper_rejected(
    mk: Seq<u8>,
    salt: Seq<u8>,
    nonce: Seq<u8>,
    payload: Seq<u8>,
    pt: Seq<u8>,
    altered_size: u64,
)
    requires
        salt.len() == 16,
        nonce.len() == 12,
        pt.len() <= u64::MAX,
        open_ok(mk, crate::codec::spec_envelope(salt, nonce, pt.len() as u64, payload), pt),
        altered_size != pt.len(),
    ensures
        forall|q: Seq<u8>| !open_ok(mk, crate::codec::spec_envelope(salt, nonce, altered_size, payload), q),
{
    let env2 = crate::codec::spec_envelope(salt, nonce, altered_size, payload);
    crate::codec::lemma_envelope_fields(salt, nonce, pt.len() as u64, payload);
    crate::codec::lemma_envelope_fields(salt, nonce, altered_size, payload);
    assert forall|q: Seq<u8>| !open_ok(mk, env2, q) by {
        if open_ok(mk, env2, q) {
            assert(Some(q) == Some(pt));
        }
    }
}

/// An envelope determines its plaintext: if the same envelope opens under
/// the same master key to two plaintexts, they are equal. Together with
/// `encrypt`'s guarantee that a sealed envelope opens to the sealed
/// plaintext, whatever `decrypt` returns for that envelope is the original
/// plaintext: the round trip is exact.
pub proof fn lemma_open_unique(mk: Seq<u8>, env: Seq<u8>, pt1: Seq<u8>, pt2: Seq<u8>)
    requires
        open_ok(mk, env, pt1),
        open_ok(mk, env, pt2),
    ensures
        pt1 == pt2,
{
    assert(Some(pt1) == Some(pt2));
}

} // verus!
