//! Small text helpers shared by the modules that build or transform
//! strings: character-vector conversions, decimal rendering, and
//! substring replacement.

use vstd::prelude::*;

verus! {

use vstd::string::StrSliceExecFns;

/// Relies on `String::push`: appends exactly the one character.
#[verifier::external_body]
pub(crate) fn push_char(s: &mut String, c: char)
    ensures
        final(s)@ == old(s)@.push(c),
{
    s.push(c);
}

/// Build a `String` holding exactly the given characters.
pub fn chars_to_string(v: &Vec<char>) -> (r: String)
    ensures
        r@ == v@,
{
    let mut s = String::new();
    let mut i: usize = 0;
    while i < v.len()
        invariant
            i <= v@.len(),
            s@ == v@.take(i as int),
        decreases v@.len() - i,
    {
        push_char(&mut s, v[i]);
        proof {
            assert(v@.take(i as int).push(v@[i as int]) =~= v@.take(i + 1));
        }
        i += 1;
    }
    proof {
        assert(v@.take(v@.len() as int) =~= v@);
    }
    s
}

/// The characters of a string slice, as a vector.
pub fn str_to_chars(s: &str) -> (r: Vec<char>)
    ensures
        r@ == s@,
{
    let n = s.unicode_len();
    let mut v: Vec<char> = Vec::new();
    let mut i: usize = 0;
    while i < n
        invariant
            i <= n,
            n == s@.len(),
            v@ == s@.take(i as int),
        decreases n - i,
    {
        v.push(s.get_char(i));
        proof {
            assert(s@.take(i as int).push(s@[i as int]) =~= s@.take(i + 1));
        }
        i += 1;
    }
    proof {
        assert(s@.take(n as int) =~= s@);
    }
    v
}

/// The character for one decimal digit.
pub open spec fn spec_digit(d: nat) -> char {
    if d == 0 {
        '0'
    } else if d == 1 {
        '1'
    } else if d == 2 {
        '2'
    } else if d == 3 {
        '3'
    } else if d == 4 {
        '4'
    } else if d == 5 {
        '5'
    } else if d == 6 {
        '6'
    } else if d == 7 {
        '7'
    } else if d == 8 {
        '8'
    } else {
        '9'
    }
}

/// The usual decimal rendering of a natural number, without leading zeros
/// (except for zero itself).
pub open spec fn spec_decimal(n: nat) -> Seq<char>
    decreases n,
{
    if n < 10 {
        seq![spec_digit(n)]
    } else {
        spec_decimal(n / 10) + seq![spec_digit(n % 10)]
    }
}

/// The decimal rendering of an integer: a minus sign for negative values.
pub open spec fn spec_int_decimal(n: int) -> Seq<char> {
    if n < 0 {
        seq!['-'] + spec_decimal((-n) as nat)
    } else {
        spec_decimal(n as nat)
    }
}

pub(crate) fn digit_char(d: u8) -> (c: char)
    requires
        d < 10,
    ensures
        c == spec_digit(d as nat),
{
    if d == 0 {
        '0'
    } else if d == 1 {
        '1'
    } else if d == 2 {
        '2'
    } else if d == 3 {
        '3'
    } else if d == 4 {
        '4'
    } else if d == 5 {
        '5'
    } else if d == 6 {
        '6'
    } else if d == 7 {
        '7'
    } else if d == 8 {
        '8'
    } else {
        '9'
    }
}

/// Append the decimal rendering of `n` to `out`.
pub fn push_decimal(n: u64, out: &mut Vec<char>)
    ensures
        final(out)@ == old(out)@ + spec_decimal(n as nat),
    decreases n,
{
    if n < 10 {
        out.push(digit_char(n as u8));
        proof {
            assert(old(out)@.push(spec_digit(n as nat)) =~= old(out)@ + spec_decimal(n as nat));
        }
    } else {
        push_decimal(n / 10, out);
        out.push(digit_char((n % 10) as u8));
        proof {
            assert((old(out)@ + spec_decimal((n / 10) as nat)).push(spec_digit((n % 10) as nat))
                =~= old(out)@ + spec_decimal(n as nat));
        }
    }
}

/// `hay` with every non-overlapping occurrence of `from` replaced, left to
/// right, by `to`; an empty pattern matches at every character boundary,
/// including both ends.
pub open spec fn spec_replace(hay: Seq<char>, from: Seq<char>, to: Seq<char>) -> Seq<char>
    decreases hay.len(),
{
    if from.len() == 0 {
        if hay.len() == 0 {
            to
        } else {
            to + seq![hay[0]] + spec_replace(hay.skip(1), from, to)
        }
    } else if hay.len() < from.len() {
        hay
    } else if hay.subrange(0, from.len() as int) == from {
        to + spec_replace(hay.skip(from.len() as int), from, to)
    } else {
        seq![hay[0]] + spec_replace(hay.skip(1), from, to)
    }
}

/// Whether `from` occurs in `hay` starting at position `at`.
pub(crate) fn matches_at(hay: &Vec<char>, from: &Vec<char>, at: usize) -> (r: bool)
    requires
        at + from@.len() <= hay@.len(),
    ensures
        r == (hay@.subrange(at as int, at + from@.len()) == from@),
{
    let hn = hay.len();
    let mut j: usize = 0;
    while j < from.len()
        invariant
            j <= from@.len(),
            at + from@.len() <= hay@.len(),
            hn == hay@.len(),
            forall|k: int| 0 <= k < j ==> hay@[at + k] == from@[k],
        decreases from@.len() - j,
    {
        if hay[at + j] != from[j] {
            proof {
                assert(hay@.subrange(at as int, at + from@.len())[j as int] != from@[j as int]);
            }
            return false;
        }
        j += 1;
    }
    proof {
        assert(hay@.subrange(at as int, at + from@.len()) =~= from@);
    }
    true
}

/// Replace every non-overlapping occurrence of `from` in `hay` by `to`,
/// left to right, as `spec_replace` describes.
pub fn replace_chars(hay: &Vec<char>, from: &Vec<char>, to: &Vec<char>) -> (r: Vec<char>)
    ensures
        r@ == spec_replace(hay@, from@, to@),
{
    let ghost full = spec_replace(hay@, from@, to@);
    let mut out: Vec<char> = Vec::new();
    let mut i: usize = 0;
    proof {
        assert(hay@.skip(0) =~= hay@);
    }
    if from.len() == 0 {
        while i < hay.len()
            invariant
                i <= hay@.len(),
                from@.len() == 0,
                full == spec_replace(hay@, from@, to@),
                full == out@ + spec_replace(hay@.skip(i as int), from@, to@),
            decreases hay@.len() - i,
        {
            out.extend_from_slice(to.as_slice());
            out.push(hay[i]);
            proof {
                let rest = hay@.skip(i as int);
                assert(rest[0] == hay@[i as int]);
                assert(rest.skip(1) =~= hay@.skip(i + 1));
                assert(to@ + seq![hay@[i as int]] + spec_replace(hay@.skip(i + 1), from@, to@)
                    == spec_replace(rest, from@, to@));
            }
            i += 1;
        }
        out.extend_from_slice(to.as_slice());
        proof {
            assert(hay@.skip(hay@.len() as int) =~= Seq::<char>::empty());
        }
        out
    } else {
        while i < hay.len()
            invariant
                i <= hay@.len(),
                from@.len() > 0,
                full == spec_replace(hay@, from@, to@),
                full == out@ + spec_replace(hay@.skip(i as int), from@, to@),
            decreases hay@.len() - i,
        {
            if from.len() <= hay.len() - i && matches_at(hay, from, i) {
                out.extend_from_slice(to.as_slice());
                proof {
                    let rest = hay@.skip(i as int);
                    assert(rest.subrange(0, from@.len() as int) =~= hay@.subrange(
                        i as int,
                        i + from@.len(),
                    ));
                    assert(rest.skip(from@.len() as int) =~= hay@.skip(i + from@.len()));
                }
                i += from.len();
            } else {
                out.push(hay[i]);
                proof {
                    let rest = hay@.skip(i as int);
                    assert(rest[0] == hay@[i as int]);
                    assert(rest.skip(1) =~= hay@.skip(i + 1));
                    if rest.len() >= from@.len() {
                        assert(rest.subrange(0, from@.len() as int) =~= hay@.subrange(
                            i as int,
                            i + from@.len(),
                        ));
                    }
                }
                i += 1;
            }
        }
        proof {
            assert(hay@.skip(hay@.len() as int) =~= Seq::<char>::empty());
        }
        out
    }
}

} // verus!
