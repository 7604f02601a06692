//! Time ranges to cut out of the source video, and their processing order.
use vstd::prelude::*;

verus! {

/// A half-open time range `[start, end)` of the source, in milliseconds.
#[derive(Clone, Copy, Debug, PartialEq, Eq, Structural)]
pub struct Segment {
    pub start: u64,
    pub end: u64,
}

impl Segment {
    pub fn new(start: u64, end: u64) -> (r: Segment)
        ensures
            r.start == start,
            r.end == end,
    {
        Segment { start, end }
    }

    /// The length of the range; zero when `end` does not exceed `start`.
    pub fn duration(&self) -> (r: u64)
        ensures
            r as int == if self.end > self.start { self.end - self.start } else { 0 },
    {
        if self.end > self.start { self.end - self.start } else { 0 }
    }
}

/// The segments are in ascending order of `start`.
pub open spec fn sorted_by_start(s: Seq<Segment>) -> bool {
    forall|i: int, j: int| 0 <= i < j < s.len() ==> s[i].start <= s[j].start
}

proof fn lemma_swap_keeps_multiset(s: Seq<Segment>, j: int)
    requires
        0 < j < s.len(),
    ensures
        s.update(j - 1, s[j]).update(j, s[j - 1]).to_multiset() == s.to_multiset(),
{
    broadcast use {
        vstd::seq_lib::to_multiset_update,
        vstd::seq_lib::group_to_multiset_ensures,
        vstd::multiset::group_multiset_axioms,
    };
    assert(s.contains(s[j - 1]));
    assert(s.contains(s[j]));
    let s1 = s.update(j - 1, s[j]);
    assert(s1[j] == s[j]);
    assert(s1.to_multiset() == s.to_multiset().insert(s[j]).remove(s[j - 1]));
    assert(s1.update(j, s[j - 1]).to_multiset()
        == s1.to_multiset().insert(s[j - 1]).remove(s[j]));
    assert(s1.update(j, s[j - 1]).to_multiset() =~= s.to_multiset());
}

/// The segments in ascending order of `start`; segments with equal starts keep
/// their relative order.
pub fn sort_segments(segments: &Vec<Segment>) -> (r: Vec<Segment>)
    ensures
        sorted_by_start(r@),
        r@.to_multiset() == segments@.to_multiset(),
{
    let mut v = segments.clone();
    assert(v@ == segments@);
    let n = v.len();
    let mut i: usize = 1;
    if n == 0 {
        return v;
    }
    while i < n
        invariant
            1 <= i <= n,
            n == v.len(),
            sorted_by_start(v@.take(i as int)),
            v@.to_multiset() == segments@.to_multiset(),
        decreases n - i,
    {
        let mut j: usize = i;
        assert forall|a: int, b: int| 0 <= a < b < i implies v@[a].start <= v@[b].start by {
            assert(v@.take(i as int)[a] == v@[a]);
            assert(v@.take(i as int)[b] == v@[b]);
        }
        while j > 0 && v[j - 1].start > v[j].start
            invariant
                0 <= j <= i < n,
                n == v.len(),
                v@.to_multiset() == segments@.to_multiset(),
                forall|a: int, b: int|
                    0 <= a < b <= i && a != j && b != j ==> v@[a].start <= v@[b].start,
                forall|b: int| j < b <= i ==> v@[j as int].start < v@[b].start,
            decreases j,
        {
            let a = v[j - 1];
            let b = v[j];
            proof { lemma_swap_keeps_multiset(v@, j as int); }
            v.set(j - 1, b);
            v.set(j, a);
            j = j - 1;
        }
        assert(sorted_by_start(v@.take(i + 1)));
        i = i + 1;
    }
    assert(v@.take(n as int) =~= v@);
    v
}

} // verus!
