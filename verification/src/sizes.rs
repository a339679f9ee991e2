//! Human-readable rendering of byte counts for file listings.

use vstd::prelude::*;

verus! {

use crate::text::chars_to_string;
use crate::text::digit_char;
use crate::text::push_decimal;
use crate::text::spec_decimal;
use crate::text::spec_digit;
use crate::text::spec_int_decimal;

/// A byte count scaled to tenths of a unit, rounded to nearest with ties to
/// even.
pub open spec fn spec_rounded_tenths(bytes: int, unit: int) -> int {
    let q = (bytes * 10) / unit;
    let rem = (bytes * 10) % unit;
    if 2 * rem > unit {
        q + 1
    } else if 2 * rem == unit && q % 2 == 1 {
        q + 1
    } else {
        q
    }
}

/// The `whole.tenth` rendering of a byte count in the given unit.
pub open spec fn spec_scaled_size(bytes: int, unit: int) -> Seq<char> {
    let t = spec_rounded_tenths(bytes, unit);
    spec_decimal((t / 10) as nat) + seq!['.'] + seq![spec_digit((t % 10) as nat)]
}

/// What `format_size` renders: plain bytes below one KiB, otherwise one
/// decimal place in the largest of KiB, MiB and GiB that stays below one.
pub open spec fn spec_format_size(bytes: int) -> Seq<char> {
    if bytes < 1024 {
        spec_int_decimal(bytes) + seq![' ', 'B']
    } else if bytes < 1048576 {
        spec_scaled_size(bytes, 1024) + seq![' ', 'K', 'B']
    } else if bytes < 1073741824 {
        spec_scaled_size(bytes, 1048576) + seq![' ', 'M', 'B']
    } else {
        spec_scaled_size(bytes, 1073741824) + seq![' ', 'G', 'B']
    }
}

/// Append the `whole.tenth` rendering of `bytes` scaled by `unit`.
fn push_scaled(bytes: u64, unit: u64, out: &mut Vec<char>)
    requires
        unit == 1024 || unit == 1048576 || unit == 1073741824,
    ensures
        final(out)@ == old(out)@ + spec_scaled_size(bytes as int, unit as int),
{
    let prod: u128 = (bytes as u128) * 10;
    let q128 = prod / (unit as u128);
    let rem128 = prod % (unit as u128);
    proof {
        vstd::arithmetic::div_mod::lemma_fundamental_div_mod(prod as int, unit as int);
        assert(q128 * (unit as u128) <= prod);
        assert(q128 < 0x2000_0000_0000_0000) by {
            if q128 >= 0x2000_0000_0000_0000 {
                assert(q128 * (unit as u128) >= 0x2000_0000_0000_0000 * 1024) by (nonlinear_arith)
                    requires
                        q128 >= 0x2000_0000_0000_0000,
                        unit >= 1024,
                ;
            }
        }
    }
    let q: u64 = q128 as u64;
    let rem: u64 = rem128 as u64;
    let t: u64 = if 2 * rem > unit {
        q + 1
    } else if 2 * rem == unit && q % 2 == 1 {
        q + 1
    } else {
        q
    };
    proof {
        assert(t == spec_rounded_tenths(bytes as int, unit as int));
    }
    push_decimal(t / 10, out);
    out.push('.');
    out.push(digit_char((t % 10) as u8));
    proof {
        assert(out@ =~= old(out)@ + spec_scaled_size(bytes as int, unit as int));
    }
}

/// Render a byte count for display: `512 B`, `5.2 KB`, `30.0 MB`, `2.0 GB`.
///
/// Counts below one KiB are rendered exactly; larger ones are scaled to the
/// greatest binary unit below them and rounded to one decimal place, ties
/// to even.
pub fn format_size(bytes: i64) -> (r: String)
    ensures
        r@ == spec_format_size(bytes as int),
{
    let mut v: Vec<char> = Vec::new();
    if bytes < 1024 {
        if bytes < 0 {
            v.push('-');
            let mag: u64 = ((-(bytes + 1)) as u64) + 1;
            push_decimal(mag, &mut v);
        } else {
            push_decimal(bytes as u64, &mut v);
        }
        v.push(' ');
        v.push('B');
        proof {
            assert(v@ =~= spec_format_size(bytes as int));
        }
    } else if bytes < 1048576 {
        push_scaled(bytes as u64, 1024, &mut v);
        v.push(' ');
        v.push('K');
        v.push('B');
        proof {
            assert(v@ =~= spec_format_size(bytes as int));
        }
    } else if bytes < 1073741824 {
        push_scaled(bytes as u64, 1048576, &mut v);
        v.push(' ');
        v.push('M');
        v.push('B');
        proof {
            assert(v@ =~= spec_format_size(bytes as int));
        }
    } else {
        push_scaled(bytes as u64, 1073741824, &mut v);
        v.push(' ');
        v.push('G');
        v.push('B');
        proof {
            assert(v@ =~= spec_format_size(bytes as int));
        }
    }
    chars_to_string(&v)
}

} // verus!
