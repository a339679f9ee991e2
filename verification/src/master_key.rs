//! Parsing the hex-encoded 32-byte master key that the command-line tools
//! accept from their environment. How the text is obtained is the caller's
//! business; this module only decides whether it denotes a valid key.

use vstd::prelude::*;

verus! {

use crate::text::str_to_chars;

/// Why a master-key string was rejected.
#[derive(Debug, PartialEq, Eq)]
pub enum MasterKeyError {
    /// The text is not an even-length string of hexadecimal digits.
    InvalidHex,
    /// The text is valid hex but does not denote exactly 32 bytes; the
    /// payload is the number of bytes it does denote.
    WrongLength(usize),
}

/// Whether a character is a hexadecimal digit, either case.
pub open spec fn spec_is_hex_char(c: char) -> bool {
    (48 <= c as u32 <= 57) || (97 <= c as u32 <= 102) || (65 <= c as u32 <= 70)
}

/// The value of a hexadecimal digit character.
pub open spec fn spec_hex_char_val(c: char) -> nat {
    if 48 <= c as u32 <= 57 {
        (c as u32 - 48) as nat
    } else if 97 <= c as u32 <= 102 {
        (c as u32 - 87) as nat
    } else {
        (c as u32 - 55) as nat
    }
}

/// Whether a string is decodable hex: even length, hex digits throughout.
pub open spec fn spec_valid_hex(s: Seq<char>) -> bool {
    s.len() % 2 == 0 && (forall|i: int| 0 <= i < s.len() ==> spec_is_hex_char(#[trigger] s[i]))
}

/// The bytes an even-length hex string denotes, two digits per byte, high
/// nibble first.
pub open spec fn spec_hex_decoded(s: Seq<char>) -> Seq<u8> {
    Seq::new(
        (s.len() / 2) as nat,
        |i: int| (16 * spec_hex_char_val(s[2 * i]) + spec_hex_char_val(s[2 * i + 1])) as u8,
    )
}

fn hex_char_val(c: char) -> (r: Option<u8>)
    ensures
        r is Some <==> spec_is_hex_char(c),
        r matches Some(v) ==> v == spec_hex_char_val(c) && v < 16,
{
    let u = c as u32;
    if 48 <= u && u <= 57 {
        Some((u - 48) as u8)
    } else if 97 <= u && u <= 102 {
        Some((u - 87) as u8)
    } else if 65 <= u && u <= 70 {
        Some((u - 55) as u8)
    } else {
        None
    }
}

/// Decode a hex-encoded master key: exactly 64 hexadecimal digits denoting
/// 32 bytes.
///
/// Undecodable text — an odd length or a non-hex character — is
/// `InvalidHex`; decodable text of the wrong size is `WrongLength` with the
/// number of bytes it denotes. Exactly the 64-digit hex strings are
/// accepted, and the returned key is their decoding.
pub fn master_key_from_hex(text: &str) -> (r: Result<Vec<u8>, MasterKeyError>)
    ensures
        r is Ok <==> spec_valid_hex(text@) && text@.len() == 64,
        r matches Ok(k) ==> k@ == spec_hex_decoded(text@) && k@.len() == 32,
        r matches Err(e) ==> match e {
            MasterKeyError::InvalidHex => !spec_valid_hex(text@),
            MasterKeyError::WrongLength(n) => spec_valid_hex(text@) && text@.len() != 64 && n
                == text@.len() / 2,
        },
{
    let chars = str_to_chars(text);
    let n = chars.len();
    if n % 2 != 0 {
        return Err(MasterKeyError::InvalidHex);
    }

    let mut bytes: Vec<u8> = Vec::new();
    let mut i: usize = 0;
    while i < n
        invariant
            i <= n,
            i % 2 == 0,
            n % 2 == 0,
            n == chars@.len(),
            chars@ == text@,
            bytes@.len() == i / 2,
            forall|j: int| 0 <= j < i ==> spec_is_hex_char(#[trigger] text@[j]),
            forall|j: int| 0 <= j < i / 2 ==> bytes@[j] == spec_hex_decoded(text@)[j],
        decreases n - i,
    {
        let hi = match hex_char_val(chars[i]) {
            Some(v) => v,
            None => return Err(MasterKeyError::InvalidHex),
        };
        let lo = match hex_char_val(chars[i + 1]) {
            Some(v) => v,
            None => return Err(MasterKeyError::InvalidHex),
        };
        bytes.push(16 * hi + lo);
        i += 2;
    }

    if bytes.len() != 32 {
        return Err(MasterKeyError::WrongLength(bytes.len()));
    }

    proof {
        assert(bytes@ =~= spec_hex_decoded(text@));
    }
    Ok(bytes)
}

} // verus!
