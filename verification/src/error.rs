//! The failures the encryption subsystem can report.

use vstd::prelude::*;

verus! {

use vstd::string::StringExecFns;

/// Everything that can go wrong while sealing, opening, deriving keys or
/// checking digests. Wrong key and tampered ciphertext are deliberately one
/// kind, `DecryptionFailed`, so that the error surface gives an attacker no
/// oracle.
#[derive(Debug)]
pub enum CryptoError {
    /// The authenticated-encryption primitive rejected its input.
    EncryptionFailed(String),
    /// Wrong key, tampered or corrupt ciphertext, or a failed size
    /// cross-check after an otherwise valid tag.
    DecryptionFailed(String),
    /// A key-derivation primitive rejected its parameters.
    KeyDerivationFailed(String),
    /// A truncated envelope, a foreign magic marker, or an unsupported
    /// format version.
    InvalidHeader(String),
    /// A content digest did not match its expected label.
    HashMismatch { expected: String, actual: String },
}

/// The description `describe` returns for each error kind.
pub open spec fn spec_describe(e: CryptoError) -> Seq<char> {
    match e {
        CryptoError::EncryptionFailed(m) => "encryption failed: "@ + m@,
        CryptoError::DecryptionFailed(m) => "decryption failed: "@ + m@,
        CryptoError::KeyDerivationFailed(m) => "key derivation failed: "@ + m@,
        CryptoError::InvalidHeader(m) => "invalid file header: "@ + m@,
        CryptoError::HashMismatch { expected, actual } => "hash mismatch: expected "@
            + expected@ + ", got "@ + actual@,
    }
}

impl CryptoError {
    /// A human-readable description of the error, in the shape
    /// `kind: detail`.
    pub fn describe(&self) -> (r: String)
        ensures
            r@ == spec_describe(*self),
    {
        match self {
            CryptoError::EncryptionFailed(m) => String::from_str("encryption failed: ").concat(
                m.as_str(),
            ),
            CryptoError::DecryptionFailed(m) => String::from_str("decryption failed: ").concat(
                m.as_str(),
            ),
            CryptoError::KeyDerivationFailed(m) => String::from_str(
                "key derivation failed: ",
            ).concat(m.as_str()),
            CryptoError::InvalidHeader(m) => String::from_str("invalid file header: ").concat(
                m.as_str(),
            ),
            CryptoError::HashMismatch { expected, actual } => String::from_str(
                "hash mismatch: expected ",
            ).concat(expected.as_str()).concat(", got ").concat(actual.as_str()),
        }
    }
}

} // verus!
