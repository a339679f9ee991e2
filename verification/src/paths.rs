//! Remote-key conventions of the command-line tools: where an uploaded
//! file goes, and where a remote key lands locally. Filesystem access and
//! date formatting stay with the callers.

use vstd::prelude::*;

verus! {

use crate::text::chars_to_string;
use crate::text::matches_at;
use crate::text::str_to_chars;

/// The remote key an upload is stored under: the `active/` area, a
/// year-month folder, and the file's name with the envelope suffix.
pub open spec fn spec_remote_upload_path(year_month: Seq<char>, filename: Seq<char>) -> Seq<char> {
    "active/"@ + year_month + "/"@ + filename + ".enc"@
}

/// `s` without the prefix `p`, when it starts with it; `s` itself
/// otherwise.
pub open spec fn spec_strip_prefix(s: Seq<char>, p: Seq<char>) -> Seq<char> {
    if s.len() >= p.len() && s.subrange(0, p.len() as int) == p {
        s.skip(p.len() as int)
    } else {
        s
    }
}

/// `s` without the suffix `p`, when it ends with it; `s` itself otherwise.
pub open spec fn spec_strip_suffix(s: Seq<char>, p: Seq<char>) -> Seq<char> {
    if s.len() >= p.len() && s.subrange(s.len() - p.len(), s.len() as int) == p {
        s.take(s.len() - p.len())
    } else {
        s
    }
}

/// Where a synced remote key lands, relative to the download directory:
/// the `transfer/` area prefix goes, then the envelope suffix.
pub open spec fn spec_local_relative_key(key: Seq<char>) -> Seq<char> {
    spec_strip_suffix(spec_strip_prefix(key, "transfer/"@), ".enc"@)
}

/// The characters of `s` without the prefix `p`, when present.
fn strip_prefix_chars(s: &Vec<char>, p: &Vec<char>) -> (r: Vec<char>)
    ensures
        r@ == spec_strip_prefix(s@, p@),
{
    if p.len() <= s.len() && matches_at(s, p, 0) {
        let mut out: Vec<char> = Vec::new();
        let mut i: usize = p.len();
        while i < s.len()
            invariant
                p@.len() <= i <= s@.len(),
                out@ == s@.subrange(p@.len() as int, i as int),
            decreases s@.len() - i,
        {
            out.push(s[i]);
            proof {
                assert(s@.subrange(p@.len() as int, i as int).push(s@[i as int]) =~= s@.subrange(
                    p@.len() as int,
                    i + 1,
                ));
            }
            i += 1;
        }
        proof {
            assert(s@.subrange(p@.len() as int, s@.len() as int) =~= s@.skip(p@.len() as int));
        }
        out
    } else {
        let mut out: Vec<char> = Vec::new();
        let mut i: usize = 0;
        while i < s.len()
            invariant
                i <= s@.len(),
                out@ == s@.take(i as int),
            decreases s@.len() - i,
        {
            out.push(s[i]);
            proof {
                assert(s@.take(i as int).push(s@[i as int]) =~= s@.take(i + 1));
            }
            i += 1;
        }
        proof {
            assert(s@.take(s@.len() as int) =~= s@);
        }
        out
    }
}

/// The characters of `s` without the suffix `p`, when present.
fn strip_suffix_chars(s: &Vec<char>, p: &Vec<char>) -> (r: Vec<char>)
    ensures
        r@ == spec_strip_suffix(s@, p@),
{
    let take_to: usize = if p.len() <= s.len() && matches_at(s, p, s.len() - p.len()) {
        s.len() - p.len()
    } else {
        s.len()
    };
    let mut out: Vec<char> = Vec::new();
    let mut i: usize = 0;
    while i < take_to
        invariant
            i <= take_to <= s@.len(),
            out@ == s@.take(i as int),
        decreases take_to - i,
    {
        out.push(s[i]);
        proof {
            assert(s@.take(i as int).push(s@[i as int]) =~= s@.take(i + 1));
        }
        i += 1;
    }
    proof {
        assert(s@.take(s@.len() as int) =~= s@);
    }
    out
}

/// The remote key an uploaded file is stored under: `active/`, the given
/// year-month folder, and the file's name with the envelope suffix.
pub fn remote_upload_path(year_month: &str, filename: &str) -> (r: String)
    ensures
        r@ == spec_remote_upload_path(year_month@, filename@),
{
    let mut v = str_to_chars("active/");
    let mut ym = str_to_chars(year_month);
    let mut slash = str_to_chars("/");
    let mut name = str_to_chars(filename);
    let mut suffix = str_to_chars(".enc");
    v.append(&mut ym);
    v.append(&mut slash);
    v.append(&mut name);
    v.append(&mut suffix);
    chars_to_string(&v)
}

/// Where a synced remote key lands, relative to the download directory:
/// without the `transfer/` area prefix and without the envelope suffix,
/// each removed only when present.
pub fn local_relative_key(key: &str) -> (r: String)
    ensures
        r@ == spec_local_relative_key(key@),
{
    let chars = str_to_chars(key);
    let prefix = str_to_chars("transfer/");
    let suffix = str_to_chars(".enc");
    let without_prefix = strip_prefix_chars(&chars, &prefix);
    let without_suffix = strip_suffix_chars(&without_prefix, &suffix);
    chars_to_string(&without_suffix)
}

/// A file's local name when it is downloaded singly: its remote base name
/// without the envelope suffix, when present.
pub fn download_file_name(basename: &str) -> (r: String)
    ensures
        r@ == spec_strip_suffix(basename@, ".enc"@),
{
    let chars = str_to_chars(basename);
    let suffix = str_to_chars(".enc");
    let stripped = strip_suffix_chars(&chars, &suffix);
    chars_to_string(&stripped)
}

} // verus!
