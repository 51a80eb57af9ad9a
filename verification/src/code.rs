//! Code-statistics support: the line-count record kept per language,
//! and the aggregation of per-file counts into per-language totals.
//! Walking a directory and counting the lines of a file are left to
//! the caller; this module owns the arithmetic and the grouping.

use vstd::prelude::*;
use vstd::string::StrSliceExecFns;

verus! {

/// Whether a file name is hidden: it starts with a dot.
pub fn is_hidden(file_name: &str) -> (r: bool)
    ensures
        r == (file_name@.len() > 0 && file_name@[0] == '.'),
{
    if file_name.unicode_len() == 0 {
        false
    } else {
        file_name.get_char(0) == '.'
    }
}

/// A line-count record: code, comment and blank lines, and the total.
#[derive(Clone, Copy, Debug, PartialEq, Eq, Structural)]
pub struct Count {
    /// Lines of code.
    pub code: u32,
    /// Comment lines.
    pub comment: u32,
    /// Blank lines.
    pub blank: u32,
    /// All lines.
    pub lines: u32,
}

/// The sum of two counters, saturating at the counter's maximum.
pub open spec fn spec_sat_add(a: u32, b: u32) -> u32 {
    if a + b > u32::MAX {
        u32::MAX
    } else {
        (a + b) as u32
    }
}

/// The field-wise saturating sum of two count records.
pub open spec fn spec_merge(a: Count, b: Count) -> Count {
    Count {
        code: spec_sat_add(a.code, b.code),
        comment: spec_sat_add(a.comment, b.comment),
        blank: spec_sat_add(a.blank, b.blank),
        lines: spec_sat_add(a.lines, b.lines),
    }
}

fn sat_add(a: u32, b: u32) -> (r: u32)
    ensures
        r == spec_sat_add(a, b),
{
    if a > u32::MAX - b {
        u32::MAX
    } else {
        a + b
    }
}

impl Count {
    /// An all-zero count record.
    pub fn zero() -> (r: Count)
        ensures
            r == (Count { code: 0, comment: 0, blank: 0, lines: 0 }),
    {
        Count { code: 0, comment: 0, blank: 0, lines: 0 }
    }

    /// Add another record into this one, field by field; each counter
    /// saturates at its maximum instead of overflowing.
    pub fn merge(&mut self, o: &Count)
        ensures
            *final(self) == spec_merge(*old(self), *o),
    {
        self.code = sat_add(self.code, o.code);
        self.comment = sat_add(self.comment, o.comment);
        self.blank = sat_add(self.blank, o.blank);
        self.lines = sat_add(self.lines, o.lines);
    }
}

/// The (language, count) data of each element of a sequence of owned
/// pairs.
pub open spec fn pair_views(s: Seq<(String, Count)>) -> Seq<(Seq<char>, Count)> {
    Seq::new(s.len(), |i: int| (s[i].0@, s[i].1))
}

/// The index of the first pair whose language equals `key`, or `-1`.
pub open spec fn spec_key_index(acc: Seq<(Seq<char>, Count)>, key: Seq<char>) -> int
    decreases acc.len(),
{
    if acc.len() == 0 {
        -1
    } else if acc[0].0 == key {
        0
    } else {
        let r = spec_key_index(acc.drop_first(), key);
        if r == -1 {
            -1
        } else {
            r + 1
        }
    }
}

/// One aggregation step: merge the count into the entry holding the
/// language, or append a new entry for a language not seen yet.
pub open spec fn spec_upsert(acc: Seq<(Seq<char>, Count)>, key: Seq<char>, c: Count) -> Seq<
    (Seq<char>, Count),
> {
    let j = spec_key_index(acc, key);
    if j == -1 {
        acc.push((key, c))
    } else {
        acc.update(j, (acc[j].0, spec_merge(acc[j].1, c)))
    }
}

/// The per-language totals of a sequence of per-file counts: languages
/// appear in order of first occurrence, each with the saturating sum of
/// its counts.
pub open spec fn spec_aggregate(pairs: Seq<(Seq<char>, Count)>) -> Seq<(Seq<char>, Count)>
    decreases pairs.len(),
{
    if pairs.len() == 0 {
        Seq::empty()
    } else {
        spec_upsert(spec_aggregate(pairs.drop_last()), pairs.last().0, pairs.last().1)
    }
}

proof fn lemma_key_index_at(pv: Seq<(Seq<char>, Count)>, key: Seq<char>, j: int)
    requires
        0 <= j < pv.len(),
        pv[j].0 == key,
        forall|k: int| 0 <= k < j ==> pv[k].0 != key,
    ensures
        spec_key_index(pv, key) == j,
    decreases pv.len(),
{
    if j > 0 {
        let t = pv.drop_first();
        assert(forall|k: int| 0 <= k < j - 1 ==> t[k] == pv[k + 1]);
        lemma_key_index_at(t, key, j - 1);
    }
}

proof fn lemma_key_index_none(pv: Seq<(Seq<char>, Count)>, key: Seq<char>)
    requires
        forall|k: int| 0 <= k < pv.len() ==> pv[k].0 != key,
    ensures
        spec_key_index(pv, key) == -1,
    decreases pv.len(),
{
    if pv.len() > 0 {
        lemma_key_index_none(pv.drop_first(), key);
    }
}

/// The index of the first accumulated entry for the given language.
fn find_key(acc: &Vec<(String, Count)>, key: &String) -> (r: Option<usize>)
    ensures
        r matches Some(j) ==> j < acc@.len() && spec_key_index(pair_views(acc@), key@) == j,
        r is None ==> spec_key_index(pair_views(acc@), key@) == -1,
{
    let ghost pv = pair_views(acc@);
    let mut j: usize = 0;
    while j < acc.len()
        invariant
            j <= acc@.len(),
            pv == pair_views(acc@),
            forall|k: int| 0 <= k < j ==> pv[k].0 != key@,
        decreases acc@.len() - j,
    {
        let e = &acc[j];
        if e.0 == *key {
            proof {
                lemma_key_index_at(pv, key@, j as int);
            }
            return Some(j);
        }
        j += 1;
    }
    proof {
        lemma_key_index_none(pv, key@);
    }
    None
}

/// Group per-file counts by language: each language's counts are
/// summed (saturating), languages keep the order of first occurrence,
/// and the result is present exactly when there was at least one pair.
pub fn aggregate_stats(pairs: &Vec<(String, Count)>) -> (r: Option<Vec<(String, Count)>>)
    ensures
        ({
            let agg = spec_aggregate(pair_views(pairs@));
            &&& (r matches Some(v) ==> pair_views(v@) == agg && agg.len() > 0)
            &&& (r is None ==> agg.len() == 0)
        }),
{
    let ghost pv = pair_views(pairs@);
    let mut acc: Vec<(String, Count)> = Vec::new();
    let mut i: usize = 0;
    proof {
        assert(pair_views(acc@) =~~= spec_aggregate(pv.take(0)));
    }
    while i < pairs.len()
        invariant
            i <= pairs@.len(),
            pv == pair_views(pairs@),
            pair_views(acc@) == spec_aggregate(pv.take(i as int)),
        decreases pairs@.len() - i,
    {
        proof {
            assert(pv.take(i + 1).drop_last() =~= pv.take(i as int));
            assert(pv.take(i + 1).last() == pv[i as int]);
        }
        let ghost acc_pv = pair_views(acc@);
        let p = &pairs[i];
        proof {
            assert(pv[i as int] == (pairs@[i as int].0@, pairs@[i as int].1));
        }
        match find_key(&acc, &p.0) {
            Some(j) => {
                let key0 = acc[j].0.clone();
                let mut cnt = acc[j].1;
                cnt.merge(&p.1);
                acc.set(j, (key0, cnt));
                proof {
                    assert(pair_views(acc@) =~~= spec_upsert(acc_pv, pv[i as int].0, pv[i as int].1));
                    assert(pair_views(acc@) =~~= spec_aggregate(pv.take(i + 1)));
                }
            },
            None => {
                acc.push((p.0.clone(), p.1));
                proof {
                    assert(pair_views(acc@) =~~= spec_upsert(acc_pv, pv[i as int].0, pv[i as int].1));
                    assert(pair_views(acc@) =~~= spec_aggregate(pv.take(i + 1)));
                }
            },
        }
        i += 1;
    }
    proof {
        assert(pv.take(pv.len() as int) =~= pv);
    }
    if acc.len() > 0 {
        Some(acc)
    } else {
        None
    }
}

} // verus!
