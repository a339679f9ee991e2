//! The cache retention planner: given the files a client holds locally and
//! its storage budget, decide which files to evict — the least recently
//! used first, until enough space is freed. Parsing the clients' textual
//! timestamps into comparable numbers stays with the HTTP layer; this
//! module consumes file size and usage metadata only.

use vstd::prelude::*;

verus! {

use vstd::multiset::Multiset;
use vstd::string::StringExecFns;

/// One locally cached file, as a client reports it: its path, its size,
/// its last use parsed to a totally ordered number, and the original
/// timestamp text, echoed back in the report.
pub struct CacheEntry {
    pub path: String,
    pub size_bytes: u64,
    pub last_used: i64,
    pub last_used_text: String,
}

/// One eviction recommendation.
pub struct EvictCandidate {
    pub path: String,
    pub reason: String,
    pub last_used: String,
}

/// The total size of the entries.
pub open spec fn spec_total(s: Seq<CacheEntry>) -> int
    decreases s.len(),
{
    if s.len() == 0 {
        0
    } else {
        s[0].size_bytes + spec_total(s.skip(1))
    }
}

pub proof fn lemma_total_nonneg(s: Seq<CacheEntry>)
    ensures
        spec_total(s) >= 0,
    decreases s.len(),
{
    if s.len() > 0 {
        lemma_total_nonneg(s.skip(1));
    }
}

/// `e` inserted into `s` before the first entry used more recently than
/// `e`; entries used at the same instant stay ahead of `e`.
pub open spec fn spec_insert(e: CacheEntry, s: Seq<CacheEntry>) -> Seq<CacheEntry>
    decreases s.len(),
{
    if s.len() == 0 {
        seq![e]
    } else if e.last_used < s[0].last_used {
        seq![e] + s
    } else {
        seq![s[0]] + spec_insert(e, s.skip(1))
    }
}

/// The entries ordered by last use, oldest first, stably: each entry in
/// turn inserted into an initially empty sequence.
pub open spec fn spec_sort_from(acc: Seq<CacheEntry>, s: Seq<CacheEntry>) -> Seq<CacheEntry>
    decreases s.len(),
{
    if s.len() == 0 {
        acc
    } else {
        spec_sort_from(spec_insert(s[0], acc), s.skip(1))
    }
}

/// The entries sorted by last use, oldest first, stably.
pub open spec fn spec_sorted_by_last_used(s: Seq<CacheEntry>) -> Seq<CacheEntry> {
    spec_sort_from(Seq::empty(), s)
}

/// The shortest prefix of `s` whose total size reaches `need`.
pub open spec fn spec_take_until(s: Seq<CacheEntry>, need: int) -> Seq<CacheEntry>
    decreases s.len(),
{
    if need <= 0 || s.len() == 0 {
        Seq::empty()
    } else {
        seq![s[0]] + spec_take_until(s.skip(1), need - s[0].size_bytes)
    }
}

/// The entries `plan_evictions` recommends: nothing while the files fit
/// the budget; otherwise the oldest files, in order of last use, until the
/// overage is covered.
pub open spec fn spec_plan(files: Seq<CacheEntry>, limit: int) -> Seq<CacheEntry> {
    if spec_total(files) <= limit {
        Seq::empty()
    } else {
        spec_take_until(spec_sorted_by_last_used(files), spec_total(files) - limit)
    }
}

/// Whether one recommendation reports exactly one planned entry.
pub open spec fn spec_candidate_matches(c: EvictCandidate, e: CacheEntry) -> bool {
    c.path@ == e.path@ && c.reason@ == "lru"@ && c.last_used@ == e.last_used_text@
}

proof fn lemma_insert_at(e: CacheEntry, s: Seq<CacheEntry>, pos: int)
    requires
        0 <= pos <= s.len(),
        forall|j: int| 0 <= j < pos ==> (#[trigger] s[j]).last_used <= e.last_used,
        pos < s.len() ==> e.last_used < s[pos].last_used,
    ensures
        spec_insert(e, s) == s.take(pos) + seq![e] + s.skip(pos),
    decreases pos,
{
    if pos == 0 {
        if s.len() == 0 {
            assert(spec_insert(e, s) =~= s.take(0) + seq![e] + s.skip(0));
        } else {
            assert(seq![e] + s =~= s.take(0) + seq![e] + s.skip(0));
        }
    } else {
        assert(s[0].last_used <= e.last_used);
        lemma_insert_at(e, s.skip(1), pos - 1);
        assert(seq![s[0]] + (s.skip(1).take(pos - 1) + seq![e] + s.skip(1).skip(pos - 1)) =~= s.take(
            pos,
        ) + seq![e] + s.skip(pos));
    }
}

proof fn lemma_total_insert(e: CacheEntry, s: Seq<CacheEntry>)
    ensures
        spec_total(spec_insert(e, s)) == e.size_bytes + spec_total(s),
    decreases s.len(),
{
    if s.len() == 0 {
        let one = seq![e];
        assert(spec_insert(e, s) == one);
        assert(one[0] == e);
        assert(one.skip(1) =~= Seq::<CacheEntry>::empty());
        assert(spec_total(one) == e.size_bytes + spec_total(one.skip(1)));
    } else if e.last_used < s[0].last_used {
        let cat = seq![e] + s;
        assert(spec_insert(e, s) == cat);
        assert(cat[0] == e);
        assert(cat.skip(1) =~= s);
        assert(spec_total(cat) == e.size_bytes + spec_total(s));
    } else {
        lemma_total_insert(e, s.skip(1));
        let cat = seq![s[0]] + spec_insert(e, s.skip(1));
        assert(spec_insert(e, s) == cat);
        assert(cat[0] == s[0]);
        assert(cat.skip(1) =~= spec_insert(e, s.skip(1)));
        assert(spec_total(cat) == s[0].size_bytes + spec_total(spec_insert(e, s.skip(1))));
        assert(spec_total(s) == s[0].size_bytes + spec_total(s.skip(1)));
    }
}

/// Recommend which cached files to evict under the given storage budget.
///
/// Nothing is recommended while the files' total size fits the budget.
/// Otherwise the files are ordered by last use, oldest first (files used
/// at the same instant keep their reported order), and recommended one by
/// one until the overage is covered. Every recommendation carries the
/// file's path, the fixed reason `lru`, and the file's original timestamp
/// text.
pub fn plan_evictions(files: Vec<CacheEntry>, storage_limit_bytes: u64) -> (r: Vec<EvictCandidate>)
    requires
        spec_total(files@) <= u64::MAX,
    ensures
        r@.len() == spec_plan(files@, storage_limit_bytes as int).len(),
        forall|i: int| 0 <= i < r@.len() ==> spec_candidate_matches(
            #[trigger] r@[i],
            spec_plan(files@, storage_limit_bytes as int)[i],
        ),
{
    let ghost orig = files@;
    let mut files = files;

    let mut total: u64 = 0;
    let mut i: usize = 0;
    proof {
        assert(files@.skip(0) =~= files@);
    }
    while i < files.len()
        invariant
            i <= files@.len(),
            files@ == orig,
            spec_total(orig) <= u64::MAX,
            total + spec_total(files@.skip(i as int)) == spec_total(orig),
        decreases files@.len() - i,
    {
        proof {
            let rest = files@.skip(i as int);
            assert(rest[0] == files@[i as int]);
            assert(rest.skip(1) =~= files@.skip(i + 1));
            lemma_total_nonneg(files@.skip(i + 1));
        }
        total = total + files[i].size_bytes;
        i += 1;
    }
    proof {
        assert(files@.skip(files@.len() as int) =~= Seq::<CacheEntry>::empty());
        assert(total == spec_total(orig));
    }

    if total <= storage_limit_bytes {
        return Vec::new();
    }
    let need: u64 = total - storage_limit_bytes;

    let mut sorted: Vec<CacheEntry> = Vec::new();
    while files.len() > 0
        invariant
            spec_total(orig) <= u64::MAX,
            total == spec_total(orig),
            spec_sort_from(sorted@, files@) == spec_sorted_by_last_used(orig),
            spec_total(sorted@) + spec_total(files@) == spec_total(orig),
        decreases files@.len(),
    {
        let ghost files_before = files@;
        let ghost sorted_before = sorted@;
        let e = files.remove(0);
        proof {
            assert(files_before.remove(0) =~= files_before.skip(1));
        }

        let mut pos: usize = 0;
        while pos < sorted.len() && sorted[pos].last_used <= e.last_used
            invariant
                pos <= sorted@.len(),
                sorted@ == sorted_before,
                forall|j: int| 0 <= j < pos ==> (#[trigger] sorted@[j]).last_used <= e.last_used,
            decreases sorted@.len() - pos,
        {
            pos += 1;
        }

        proof {
            lemma_insert_at(e, sorted_before, pos as int);
            lemma_total_insert(e, sorted_before);
        }
        sorted.insert(pos, e);
        proof {
            assert(sorted@ =~= sorted_before.take(pos as int) + seq![e] + sorted_before.skip(
                pos as int,
            ));
            assert(sorted@ == spec_insert(e, sorted_before));
        }
    }
    proof {
        assert(sorted@ == spec_sorted_by_last_used(orig));
    }

    let ghost sfull = sorted@;
    let ghost mut chosen: Seq<CacheEntry> = Seq::empty();
    let mut out: Vec<EvictCandidate> = Vec::new();
    let mut freed: u64 = 0;
    proof {
        assert(chosen + spec_take_until(sorted@, need as int) =~= spec_take_until(
            sfull,
            need as int,
        ));
    }
    while freed < need && sorted.len() > 0
        invariant
            spec_total(orig) <= u64::MAX,
            need <= spec_total(orig),
            freed == spec_total(chosen),
            spec_total(chosen) + spec_total(sorted@) == spec_total(orig),
            chosen + spec_take_until(sorted@, need - freed) == spec_take_until(sfull, need as int),
            out@.len() == chosen.len(),
            forall|k: int| 0 <= k < out@.len() ==> spec_candidate_matches(
                #[trigger] out@[k],
                chosen[k],
            ),
        decreases sorted@.len(),
    {
        let ghost sorted_before = sorted@;
        let ghost chosen_before = chosen;
        let ghost freed_before = freed;
        let e = sorted.remove(0);
        let ghost ge = e;
        proof {
            assert(sorted_before.remove(0) =~= sorted_before.skip(1));
            assert(sorted@ == sorted_before.skip(1));
            assert(sorted_before[0] == ge);
            assert(spec_total(sorted_before) == ge.size_bytes + spec_total(sorted@));
            lemma_total_nonneg(sorted@);
            assert(spec_take_until(sorted_before, need - freed) == seq![ge] + spec_take_until(
                sorted@,
                need - freed - ge.size_bytes,
            ));
        }
        let CacheEntry { path, size_bytes, last_used: _, last_used_text } = e;
        freed = freed + size_bytes;
        out.push(
            EvictCandidate { path, reason: String::from_str("lru"), last_used: last_used_text },
        );
        proof {
            chosen = chosen_before.push(ge);
            lemma_total_push(chosen_before, ge);
            assert(freed == spec_total(chosen));
            assert(chosen =~= chosen_before + seq![ge]);
            assert(chosen + spec_take_until(sorted@, need - freed) =~= chosen_before + (seq![ge]
                + spec_take_until(sorted@, need - freed_before - ge.size_bytes)));
            assert(chosen + spec_take_until(sorted@, need - freed) == chosen_before
                + spec_take_until(sorted_before, need - freed_before));
        }
    }
    proof {
        assert(spec_take_until(sorted@, need - freed) =~= Seq::<CacheEntry>::empty());
        assert(chosen == spec_take_until(sfull, need as int));
        assert(chosen == spec_plan(orig, storage_limit_bytes as int));
    }
    out
}

proof fn lemma_total_push(s: Seq<CacheEntry>, e: CacheEntry)
    ensures
        spec_total(s.push(e)) == spec_total(s) + e.size_bytes,
    decreases s.len(),
{
    let p = s.push(e);
    if s.len() == 0 {
        assert(p[0] == e);
        assert(p.skip(1) =~= Seq::<CacheEntry>::empty());
        assert(spec_total(p) == e.size_bytes + spec_total(p.skip(1)));
    } else {
        lemma_total_push(s.skip(1), e);
        assert(p[0] == s[0]);
        assert(p.skip(1) =~= s.skip(1).push(e));
        assert(spec_total(p) == s[0].size_bytes + spec_total(s.skip(1).push(e)));
        assert(spec_total(s) == s[0].size_bytes + spec_total(s.skip(1)));
    }
}

/// Whether the entries are ordered by last use, oldest first.
pub open spec fn spec_ordered(s: Seq<CacheEntry>) -> bool {
    forall|i: int, j: int| 0 <= i <= j < s.len() ==> s[i].last_used <= s[j].last_used
}

proof fn lemma_insert_multiset(e: CacheEntry, s: Seq<CacheEntry>)
    ensures
        spec_insert(e, s).to_multiset() == s.to_multiset().insert(e),
    decreases s.len(),
{
    broadcast use vstd::seq_lib::group_seq_properties;

    if s.len() == 0 {
        assert(seq![e] =~= Seq::<CacheEntry>::empty().push(e));
        assert(seq![e].to_multiset() =~= s.to_multiset().insert(e));
    } else if e.last_used < s[0].last_used {
        assert(seq![e] + s =~= (seq![e] + s.take(s.len() - 1)).push(s.last()));
        assert((seq![e] + s).to_multiset() =~= s.to_multiset().insert(e)) by {
            lemma_multiset_prepend(e, s);
        }
    } else {
        lemma_insert_multiset(e, s.skip(1));
        assert(seq![s[0]] + spec_insert(e, s.skip(1)) =~= spec_insert(e, s.skip(1)).insert(
            0,
            s[0],
        ));
        lemma_multiset_prepend(s[0], spec_insert(e, s.skip(1)));
        lemma_multiset_prepend(s[0], s.skip(1));
        assert(seq![s[0]] + s.skip(1) =~= s);
        assert((seq![s[0]] + spec_insert(e, s.skip(1))).to_multiset() =~= s.to_multiset().insert(
            e,
        ));
    }
}

proof fn lemma_multiset_prepend(e: CacheEntry, s: Seq<CacheEntry>)
    ensures
        (seq![e] + s).to_multiset() == s.to_multiset().insert(e),
    decreases s.len(),
{
    broadcast use vstd::seq_lib::group_seq_properties;

    if s.len() == 0 {
        assert(seq![e] + s =~= Seq::<CacheEntry>::empty().push(e));
    } else {
        lemma_multiset_prepend(e, s.take(s.len() - 1));
        assert(seq![e] + s =~= (seq![e] + s.take(s.len() - 1)).push(s.last()));
        assert(s =~= s.take(s.len() - 1).push(s.last()));
    }
}


proof fn lemma_skip1_ordered(s: Seq<CacheEntry>)
    requires
        spec_ordered(s),
        s.len() > 0,
    ensures
        spec_ordered(s.skip(1)),
{
    assert forall|i: int, j: int| 0 <= i <= j < s.skip(1).len() implies s.skip(1)[i].last_used
        <= s.skip(1)[j].last_used by {
        assert(s.skip(1)[i] == s[i + 1]);
        assert(s.skip(1)[j] == s[j + 1]);
    }
}

proof fn lemma_insert_ordered(e: CacheEntry, s: Seq<CacheEntry>)
    requires
        spec_ordered(s),
    ensures
        spec_ordered(spec_insert(e, s)),
    decreases s.len(),
{
    broadcast use vstd::seq_lib::group_to_multiset_ensures;

    if s.len() == 0 {
    } else if e.last_used < s[0].last_used {
        let res = seq![e] + s;
        assert forall|i: int, j: int| 0 <= i <= j < res.len() implies res[i].last_used
            <= res[j].last_used by {
            if 0 < j {
                assert(res[j] == s[j - 1]);
                assert(s[0].last_used <= s[j - 1].last_used);
            }
            if 0 < i {
                assert(res[i] == s[i - 1]);
            }
        }
    } else {
        lemma_skip1_ordered(s);
        lemma_insert_ordered(e, s.skip(1));
        lemma_insert_multiset(e, s.skip(1));
        let ins1 = spec_insert(e, s.skip(1));
        let res = seq![s[0]] + ins1;
        assert forall|i: int, j: int| 0 <= i <= j < res.len() implies res[i].last_used
            <= res[j].last_used by {
            if 0 < j {
                let x = res[j];
                assert(x == ins1[j - 1]);
                assert(ins1.contains(x));
                assert(ins1.to_multiset().count(x) > 0);
                assert(s.skip(1).to_multiset().insert(e).count(x) > 0);
                if x != e {
                    assert(s.skip(1).to_multiset().count(x) > 0);
                    assert(s.skip(1).contains(x));
                    let k = choose|k: int| 0 <= k < s.skip(1).len() && s.skip(1)[k] == x;
                    assert(s[0].last_used <= s[k + 1].last_used);
                }
                assert(s[0].last_used <= x.last_used);
            }
            if 0 < i {
                assert(res[i] == ins1[i - 1]);
                assert(res[j] == ins1[j - 1]);
            }
        }
    }
}

proof fn lemma_sort_from_properties(acc: Seq<CacheEntry>, s: Seq<CacheEntry>)
    requires
        spec_ordered(acc),
    ensures
        spec_ordered(spec_sort_from(acc, s)),
        spec_sort_from(acc, s).to_multiset() == acc.to_multiset().add(s.to_multiset()),
    decreases s.len(),
{
    broadcast use vstd::seq_lib::group_to_multiset_ensures;

    if s.len() == 0 {
        assert(spec_sort_from(acc, s).to_multiset() =~= acc.to_multiset().add(s.to_multiset()));
    } else {
        lemma_insert_ordered(s[0], acc);
        lemma_insert_multiset(s[0], acc);
        lemma_sort_from_properties(spec_insert(s[0], acc), s.skip(1));
        assert(s =~= seq![s[0]] + s.skip(1));
        lemma_multiset_prepend(s[0], s.skip(1));
        assert(spec_sort_from(acc, s).to_multiset() =~= acc.to_multiset().add(s.to_multiset()));
    }
}

/// What the ordering behind the planner really does: the sorted sequence
/// is ordered by last use, oldest first, and is a permutation of the
/// reported entries — the same files, each exactly as often.
pub proof fn lemma_sorted_by_last_used_properties(s: Seq<CacheEntry>)
    ensures
        spec_ordered(spec_sorted_by_last_used(s)),
        spec_sorted_by_last_used(s).to_multiset() == s.to_multiset(),
{
    broadcast use vstd::seq_lib::group_to_multiset_ensures;
    broadcast use vstd::multiset::lemma_multiset_empty_len;
    broadcast use vstd::multiset::group_multiset_axioms;

    lemma_sort_from_properties(Seq::empty(), s);
    let em = Seq::<CacheEntry>::empty().to_multiset();
    assert(em.len() == 0);
    assert(em =~= Multiset::<CacheEntry>::empty());
    assert(em.add(s.to_multiset()) =~= s.to_multiset());
}

} // verus!
