//! The content hasher: a content-addressable digest label for plaintext,
//! used by callers for integrity labeling and deduplication. Independent of
//! the encryption path and of all key material.

use sha2::Digest;
use sha2::Sha256;
use vstd::prelude::*;

verus! {

use vstd::string::StringExecFns;
use crate::text::chars_to_string;
use crate::text::spec_digit;

/// The 32-byte SHA-256 digest of a byte sequence: a function of the data
/// alone, the same in every process and on every machine.
pub uninterp spec fn sha256_of(data: Seq<u8>) -> Seq<u8>;

/// Relies on `sha2::Sha256`: a deterministic 32-byte digest of the input
/// bytes alone.
#[verifier::external_body]
fn sha256(data: &[u8]) -> (r: Vec<u8>)
    ensures
        r@ == sha256_of(data@),
        r@.len() == 32,
{
    let mut hasher = Sha256::new();
    hasher.update(data);
    hasher.finalize().to_vec()
}

/// The character for one hexadecimal digit, lower case.
pub open spec fn spec_hex_digit(d: nat) -> char {
    if d < 10 {
        spec_digit(d)
    } else if d == 10 {
        'a'
    } else if d == 11 {
        'b'
    } else if d == 12 {
        'c'
    } else if d == 13 {
        'd'
    } else if d == 14 {
        'e'
    } else {
        'f'
    }
}

/// The lowercase hexadecimal rendering of a byte sequence: two digits per
/// byte, high nibble first.
pub open spec fn spec_hex(bytes: Seq<u8>) -> Seq<char> {
    Seq::new(
        bytes.len() * 2,
        |i: int|
            if i % 2 == 0 {
                spec_hex_digit((bytes[i / 2] / 16) as nat)
            } else {
                spec_hex_digit((bytes[i / 2] % 16) as nat)
            },
    )
}

/// The digest label `sha256_hex` produces: the fixed scheme prefix followed
/// by the digest in lowercase hex.
pub open spec fn spec_digest_label(data: Seq<u8>) -> Seq<char> {
    "sha256:"@ + spec_hex(sha256_of(data))
}

fn hex_digit_char(d: u8) -> (c: char)
    requires
        d < 16,
    ensures
        c == spec_hex_digit(d as nat),
{
    if d == 10 {
        'a'
    } else if d == 11 {
        'b'
    } else if d == 12 {
        'c'
    } else if d == 13 {
        'd'
    } else if d == 14 {
        'e'
    } else if d == 15 {
        'f'
    } else {
        crate::text::digit_char(d)
    }
}

/// Render bytes as lowercase hexadecimal, two digits per byte.
pub fn hex_encode(bytes: &[u8]) -> (r: String)
    ensures
        r@ == spec_hex(bytes@),
{
    let mut v: Vec<char> = Vec::new();
    let mut i: usize = 0;
    while i < bytes.len()
        invariant
            i <= bytes@.len(),
            v@.len() == 2 * i,
            forall|j: int| 0 <= j < 2 * i ==> v@[j] == spec_hex(bytes@)[j],
        decreases bytes@.len() - i,
    {
        let b = bytes[i];
        v.push(hex_digit_char(b / 16));
        v.push(hex_digit_char(b % 16));
        i += 1;
    }
    proof {
        assert(v@ =~= spec_hex(bytes@));
    }
    chars_to_string(&v)
}

/// Compute the SHA-256 content label of the given data: a hex digest
/// prefixed with `sha256:`. Deterministic — a pure function of the data.
pub fn sha256_hex(data: &[u8]) -> (r: String)
    ensures
        r@ == spec_digest_label(data@),
{
    let digest = sha256(data);
    let hex = hex_encode(digest.as_slice());
    String::from_str("sha256:").concat(hex.as_str())
}

/// Whether `expected` is exactly the digest label of `data`.
pub open spec fn spec_hash_matches(data: Seq<u8>, expected: Seq<char>) -> bool {
    spec_digest_label(data) == expected
}

/// Verify that data matches the expected hash label (format:
/// `sha256:<hex>`): true exactly when the label recomputed from the data
/// equals the expected one.
pub fn verify_hash(data: &[u8], expected: &str) -> (r: bool)
    ensures
        r == spec_hash_matches(data@, expected@),
{
    let label = sha256_hex(data);
    let expected_owned = expected.to_owned();
    label == expected_owned
}

/// Digest stability, one direction of it: the label is a function of the
/// data, so the label computed from some data always verifies against that
/// same data.
pub proof fn lemma_digest_self_verifies(data: Seq<u8>)
    ensures
        spec_hash_matches(data, spec_digest_label(data)),
{
}

} // verus!
