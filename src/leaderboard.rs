use vstd::prelude::*;
use crate::models::LeaderboardEntry;

verus! {

/// Every entry's completion time is at most that of every later entry.
pub open spec fn sorted_by_time(s: Seq<LeaderboardEntry>) -> bool {
    forall|i: int, j: int| 0 <= i < j < s.len() ==> s[i].completion_time <= s[j].completion_time
}

/// Inserts `e` into `s` after every entry whose time is not above its own,
/// so that entries of equal time keep their order of arrival.
pub open spec fn insert_by_time(s: Seq<LeaderboardEntry>, e: LeaderboardEntry) -> Seq<
    LeaderboardEntry,
>
    decreases s.len(),
{
    if s.len() == 0 {
        seq![e]
    } else if s.last().completion_time <= e.completion_time {
        s.push(e)
    } else {
        insert_by_time(s.drop_last(), e).push(s.last())
    }
}

/// The stable sort of `s` by ascending completion time.
pub open spec fn sort_by_time(s: Seq<LeaderboardEntry>) -> Seq<LeaderboardEntry>
    decreases s.len(),
{
    if s.len() == 0 {
        s
    } else {
        insert_by_time(sort_by_time(s.drop_last()), s.last())
    }
}

pub(crate) proof fn lemma_insert_at(s: Seq<LeaderboardEntry>, e: LeaderboardEntry, j: int)
    requires
        0 <= j <= s.len(),
        forall|k: int| j <= k < s.len() ==> s[k].completion_time > e.completion_time,
        j == 0 || s[j - 1].completion_time <= e.completion_time,
    ensures
        insert_by_time(s, e) == s.insert(j, e),
    decreases s.len(),
{
    if s.len() == 0 {
        assert(insert_by_time(s, e) =~= s.insert(j, e));
    } else if j == s.len() {
        assert(insert_by_time(s, e) =~= s.insert(j, e));
    } else {
        let t = s.drop_last();
        assert forall|k: int| j <= k < t.len() implies t[k].completion_time > e.completion_time by {
            assert(t[k] == s[k]);
        }
        lemma_insert_at(t, e, j);
        assert(insert_by_time(s, e) =~= s.insert(j, e));
    }
}

proof fn lemma_insert_bounded(s: Seq<LeaderboardEntry>, e: LeaderboardEntry, bound: u64)
    requires
        forall|k: int| 0 <= k < s.len() ==> s[k].completion_time <= bound,
        e.completion_time <= bound,
    ensures
        forall|k: int|
            0 <= k < insert_by_time(s, e).len() ==> insert_by_time(s, e)[k].completion_time
                <= bound,
        insert_by_time(s, e).len() == s.len() + 1,
    decreases s.len(),
{
    if s.len() > 0 && s.last().completion_time > e.completion_time {
        lemma_insert_bounded(s.drop_last(), e, bound);
    }
}

proof fn lemma_insert_sorted(s: Seq<LeaderboardEntry>, e: LeaderboardEntry)
    requires
        sorted_by_time(s),
    ensures
        sorted_by_time(insert_by_time(s, e)),
        insert_by_time(s, e).to_multiset() == s.to_multiset().insert(e),
        insert_by_time(s, e).len() == s.len() + 1,
    decreases s.len(),
{
    broadcast use vstd::seq_lib::group_to_multiset_ensures;

    if s.len() == 0 {
        assert(seq![e] =~= s.push(e));
    } else if s.last().completion_time <= e.completion_time {
    } else {
        let t = s.drop_last();
        let last = s.last();
        lemma_insert_sorted(t, e);
        lemma_insert_bounded(t, e, last.completion_time);
        assert(t.push(last) =~= s);
        assert(s.to_multiset().insert(e) =~= t.to_multiset().insert(e).insert(last));
    }
}

/// Sorting by time yields a sequence in ascending order of completion time
/// that holds the same entries, each as many times.
pub proof fn lemma_sort_by_time(s: Seq<LeaderboardEntry>)
    ensures
        sorted_by_time(sort_by_time(s)),
        sort_by_time(s).to_multiset() == s.to_multiset(),
        sort_by_time(s).len() == s.len(),
    decreases s.len(),
{
    broadcast use vstd::seq_lib::group_to_multiset_ensures;

    if s.len() > 0 {
        let t = s.drop_last();
        lemma_sort_by_time(t);
        lemma_insert_sorted(sort_by_time(t), s.last());
        assert(t.push(s.last()) =~= s);
    }
}

} // verus!
