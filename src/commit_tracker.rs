//! The last seen commit counter of each element of a collection.
use vstd::prelude::*;

verus! {

/// Whether the ids of `s` strictly increase.
pub open spec fn sorted_ids(s: Seq<(u64, u64)>) -> bool {
    forall|i: int, j: int| 0 <= i < j < s.len() ==> s[i].0 < s[j].0
}

/// The commit counter last given for `id` in a list of (id, commit) pairs.
pub open spec fn last_commit(elems: Seq<(u64, u64)>, id: u64) -> Option<u64>
    decreases elems.len(),
{
    if elems.len() == 0 {
        None
    } else if elems.last().0 == id {
        Some(elems.last().1)
    } else {
        last_commit(elems.drop_last(), id)
    }
}

/// Whether `s` records, by increasing id, the last commit counter of each
/// element of `elems` and nothing else. One list of pairs has exactly one such
/// record (`lemma_records_unique`), so two records are equal exactly when they
/// record the same counters.
pub open spec fn records(s: Seq<(u64, u64)>, elems: Seq<(u64, u64)>) -> bool {
    &&& sorted_ids(s)
    &&& forall|i: int| 0 <= i < s.len() ==> last_commit(elems, #[trigger] s[i].0) == Some(s[i].1)
    &&& forall|id: u64| #[trigger] last_commit(elems, id) is Some ==> exists|i: int| 0 <= i < s.len() && s[i].0 == id
}

proof fn lemma_records_agree_below(s1: Seq<(u64, u64)>, s2: Seq<(u64, u64)>, elems: Seq<(u64, u64)>, i: int)
    requires
        records(s1, elems),
        records(s2, elems),
        0 <= i <= s1.len(),
        i <= s2.len(),
    ensures
        forall|j: int| 0 <= j < i ==> s1[j] == s2[j],
    decreases i,
{
    if i > 0 {
        let n = i - 1;
        lemma_records_agree_below(s1, s2, elems, n);
        let k1 = s1[n].0;
        let k2 = s2[n].0;
        assert(last_commit(elems, k1) is Some);
        assert(last_commit(elems, k2) is Some);
        let j2 = choose|j: int| 0 <= j < s2.len() && s2[j].0 == k1;
        let j1 = choose|j: int| 0 <= j < s1.len() && s1[j].0 == k2;
        if j2 < n {
            assert(s1[j2] == s2[j2]);
        }
        if j1 < n {
            assert(s1[j1] == s2[j1]);
        }
        if j2 > n {
            assert(s2[n].0 < s2[j2].0);
        }
        assert(j2 == n);
        assert(last_commit(elems, k1) == Some(s1[n].1));
        assert(last_commit(elems, k1) == Some(s2[n].1));
    }
}

/// Two records of the same elements are equal.
pub proof fn lemma_records_unique(s1: Seq<(u64, u64)>, s2: Seq<(u64, u64)>, elems: Seq<(u64, u64)>)
    requires
        records(s1, elems),
        records(s2, elems),
    ensures
        s1 == s2,
{
    if s1.len() <= s2.len() {
        lemma_records_agree_below(s1, s2, elems, s1.len() as int);
        if s1.len() < s2.len() {
            let n = s1.len() as int;
            assert(last_commit(elems, s2[n].0) is Some);
            let j = choose|j: int| 0 <= j < s1.len() && s1[j].0 == s2[n].0;
            assert(s1[j] == s2[j]);
        }
    } else {
        lemma_records_agree_below(s1, s2, elems, s2.len() as int);
        let n = s2.len() as int;
        assert(last_commit(elems, s1[n].0) is Some);
        let j = choose|j: int| 0 <= j < s2.len() && s2[j].0 == s1[n].0;
        assert(s1[j] == s2[j]);
    }
    assert(s1 =~= s2);
}

/// The commit counters of a collection of elements, by element id.
#[derive(Debug)]
pub struct CommitTracker {
    entries: Vec<(u64, u64)>,
}

impl View for CommitTracker {
    type V = Seq<(u64, u64)>;

    closed spec fn view(&self) -> Seq<(u64, u64)> {
        self.entries@
    }
}

proof fn lemma_last_commit_push(elems: Seq<(u64, u64)>, x: (u64, u64), id: u64)
    ensures
        last_commit(elems.push(x), id) == (if id == x.0 { Some(x.1) } else { last_commit(elems, id) }),
{
    assert(elems.push(x).drop_last() =~= elems);
}

impl CommitTracker {
    /// A tracker that records nothing.
    pub fn new() -> (r: Self)
        ensures
            r@ == Seq::<(u64, u64)>::empty(),
            records(r@, Seq::empty()),
    {
        CommitTracker { entries: Vec::new() }
    }

    /// The counters of `elems`, given as (id, commit) pairs; for an id given
    /// twice, the later counter counts.
    pub fn from_elements(elems: &Vec<(u64, u64)>) -> (r: Self)
        ensures
            records(r@, elems@),
    {
        let mut out: Vec<(u64, u64)> = Vec::new();
        let mut n: usize = 0;
        while n < elems.len()
            invariant
                n <= elems@.len(),
                records(out@, elems@.subrange(0, n as int)),
            decreases elems@.len() - n,
        {
            let x = elems[n];
            let ghost prefix = elems@.subrange(0, n as int);
            let ghost next = elems@.subrange(0, n + 1);
            proof {
                assert(next =~= prefix.push(x));
                assert forall|id: u64| last_commit(next, id) == (if id == x.0 { Some(x.1) } else { last_commit(prefix, id) }) by {
                    lemma_last_commit_push(prefix, x, id);
                }
            }
            let mut i: usize = 0;
            while i < out.len() && out[i].0 < x.0
                invariant
                    i <= out@.len(),
                    forall|j: int| 0 <= j < i ==> out@[j].0 < x.0,
                decreases out@.len() - i,
            {
                i = i + 1;
            }
            let ghost old_out = out@;
            if i < out.len() && out[i].0 == x.0 {
                out.set(i, x);
                proof {
                    assert forall|j: int| 0 <= j < out@.len() implies last_commit(next, #[trigger] out@[j].0) == Some(out@[j].1) by {
                        if j != i {
                            assert(old_out[j].0 != x.0);
                        }
                    }
                    assert forall|id: u64| #[trigger] last_commit(next, id) is Some implies exists|j: int| 0 <= j < out@.len() && out@[j].0 == id by {
                        if id == x.0 {
                            assert(out@[i as int].0 == id);
                        } else {
                            assert(last_commit(prefix, id) is Some);
                            let j = choose|j: int| 0 <= j < old_out.len() && old_out[j].0 == id;
                            assert(out@[j].0 == id);
                        }
                    }
                }
            } else {
                out.insert(i, x);
                proof {
                    old_out.insert_ensures(i as int, x);
                    assert forall|a: int, b: int| 0 <= a < b < out@.len() implies out@[a].0 < out@[b].0 by {
                        if b < i {
                        } else if b == i {
                        } else if a < i {
                            assert(old_out[b - 1].0 >= x.0 || b - 1 < i);
                            assert(out@[b] == old_out[b - 1]);
                        } else if a == i {
                            assert(out@[b] == old_out[b - 1]);
                            assert(old_out[i as int].0 > x.0);
                            if b - 1 > i {
                                assert(old_out[i as int].0 < old_out[b - 1].0);
                            }
                        } else {
                            assert(out@[a] == old_out[a - 1]);
                            assert(out@[b] == old_out[b - 1]);
                        }
                    }
                    assert forall|j: int| 0 <= j < out@.len() implies last_commit(next, #[trigger] out@[j].0) == Some(out@[j].1) by {
                        if j < i {
                            assert(out@[j] == old_out[j]);
                        } else if j > i {
                            assert(out@[j] == old_out[j - 1]);
                            assert(old_out[j - 1].0 != x.0);
                        }
                    }
                    assert forall|id: u64| #[trigger] last_commit(next, id) is Some implies exists|j: int| 0 <= j < out@.len() && out@[j].0 == id by {
                        if id == x.0 {
                            assert(out@[i as int].0 == id);
                        } else {
                            assert(last_commit(prefix, id) is Some);
                            let j = choose|j: int| 0 <= j < old_out.len() && old_out[j].0 == id;
                            if j < i {
                                assert(out@[j].0 == id);
                            } else {
                                assert(out@[j + 1].0 == id);
                            }
                        }
                    }
                }
            }
            n = n + 1;
        }
        proof {
            assert(elems@.subrange(0, elems@.len() as int) =~= elems@);
        }
        CommitTracker { entries: out }
    }

    /// Record the counters of `elems` in place of the present ones.
    pub fn update(&mut self, elems: &Vec<(u64, u64)>)
        ensures
            records(final(self)@, elems@),
    {
        *self = CommitTracker::from_elements(elems);
    }

    /// Whether both trackers record the same counters.
    pub fn same_as(&self, other: &CommitTracker) -> (r: bool)
        ensures
            r == (self@ == other@),
    {
        if self.entries.len() != other.entries.len() {
            return false;
        }
        let mut i: usize = 0;
        while i < self.entries.len()
            invariant
                i <= self@.len(),
                self@.len() == other@.len(),
                forall|j: int| 0 <= j < i ==> self@[j] == other@[j],
            decreases self@.len() - i,
        {
            if self.entries[i].0 != other.entries[i].0 || self.entries[i].1 != other.entries[i].1 {
                return false;
            }
            i = i + 1;
        }
        proof {
            assert(self@ =~= other@);
        }
        true
    }
}

} // verus!
