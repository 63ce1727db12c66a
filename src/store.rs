use vstd::prelude::*;
use crate::leaderboard::{insert_by_time, lemma_insert_at, lemma_sort_by_time, sort_by_time};
use crate::models::{LeaderboardEntry, PuzzleConfig};

verus! {

/// The in-memory store: puzzles in order of creation and leaderboard
/// entries in order of arrival. Both only ever grow.
pub struct AppState {
    pub puzzles: Vec<PuzzleConfig>,
    pub leaderboard: Vec<LeaderboardEntry>,
}

/// Index of the first puzzle of `s` whose id is `id`, if any.
pub open spec fn is_first_with_id(s: Seq<PuzzleConfig>, id: Seq<char>, i: int) -> bool {
    &&& 0 <= i < s.len()
    &&& s[i].id@ == id
    &&& forall|k: int| 0 <= k < i ==> s[k].id@ != id
}

/// No puzzle of `s` has the id `id`.
pub open spec fn has_no_id(s: Seq<PuzzleConfig>, id: Seq<char>) -> bool {
    forall|k: int| 0 <= k < s.len() ==> s[k].id@ != id
}

impl AppState {
    /// Every stored puzzle is well formed.
    pub open spec fn wf(self) -> bool {
        forall|i: int| 0 <= i < self.puzzles@.len() ==> #[trigger] self.puzzles@[i].wf()
    }

    /// An empty store.
    pub fn new() -> (r: AppState)
        ensures
            r.puzzles@.len() == 0,
            r.leaderboard@.len() == 0,
            r.wf(),
    {
        AppState { puzzles: Vec::new(), leaderboard: Vec::new() }
    }

    /// Appends a puzzle; the leaderboard is left alone.
    pub fn add_puzzle(&mut self, p: PuzzleConfig)
        ensures
            final(self).puzzles@ == old(self).puzzles@.push(p),
            final(self).leaderboard@ == old(self).leaderboard@,
            final(self).wf() == (old(self).wf() && p.wf()),
    {
        self.puzzles.push(p);
        proof {
            if final(self).wf() {
                assert(final(self).puzzles@[old(self).puzzles@.len() as int] == p);
                let before = old(self).puzzles@;
                assert forall|i: int| 0 <= i < before.len() implies #[trigger] before[i].wf() by {
                    assert(final(self).puzzles@[i] == old(self).puzzles@[i]);
                }
            }
            if old(self).wf() && p.wf() {
                let after = final(self).puzzles@;
                assert forall|i: int| 0 <= i < after.len() implies #[trigger] after[i].wf() by {
                    if i < old(self).puzzles@.len() {
                        assert(final(self).puzzles@[i] == old(self).puzzles@[i]);
                    }
                }
            }
        }
    }

    /// Appends a leaderboard entry; the puzzles are left alone.
    pub fn add_entry(&mut self, e: LeaderboardEntry)
        ensures
            final(self).leaderboard@ == old(self).leaderboard@.push(e),
            final(self).puzzles@ == old(self).puzzles@,
            final(self).wf() == old(self).wf(),
    {
        self.leaderboard.push(e);
    }

    /// The index of the first puzzle with the given id, or `None` when no
    /// puzzle has it.
    pub fn find_puzzle(&self, id: &String) -> (r: Option<usize>)
        ensures
            match r {
                Some(i) => is_first_with_id(self.puzzles@, id@, i as int),
                None => has_no_id(self.puzzles@, id@),
            },
    {
        let mut i: usize = 0;
        while i < self.puzzles.len()
            invariant
                i <= self.puzzles@.len(),
                forall|k: int| 0 <= k < i ==> self.puzzles@[k].id@ != id@,
            decreases self.puzzles@.len() - i,
        {
            if self.puzzles[i].id == *id {
                return Some(i);
            }
            i += 1;
        }
        None
    }

    /// A copy of every puzzle, in order of creation.
    pub fn puzzles_copy(&self) -> (r: Vec<PuzzleConfig>)
        ensures
            r@ == self.puzzles@,
    {
        let mut out: Vec<PuzzleConfig> = Vec::new();
        let mut i: usize = 0;
        while i < self.puzzles.len()
            invariant
                i <= self.puzzles@.len(),
                out@ == self.puzzles@.subrange(0, i as int),
            decreases self.puzzles@.len() - i,
        {
            out.push(self.puzzles[i].duplicate());
            i += 1;
            assert(out@ =~= self.puzzles@.subrange(0, i as int));
        }
        assert(out@ =~= self.puzzles@);
        out
    }

    /// A copy of the leaderboard in ascending order of completion time;
    /// entries of equal time stay in order of arrival.
    pub fn leaderboard_sorted(&self) -> (r: Vec<LeaderboardEntry>)
        ensures
            r@ == sort_by_time(self.leaderboard@),
    {
        let entries = &self.leaderboard;
        let mut out: Vec<LeaderboardEntry> = Vec::new();
        let mut i: usize = 0;
        while i < entries.len()
            invariant
                i <= entries@.len(),
                out@ == sort_by_time(entries@.subrange(0, i as int)),
            decreases entries@.len() - i,
        {
            let e = entries[i].duplicate();
            proof {
                lemma_sort_by_time(entries@.subrange(0, i as int));
            }
            let mut j: usize = out.len();
            while j > 0 && out[j - 1].completion_time > e.completion_time
                invariant
                    j <= out@.len(),
                    forall|k: int| j <= k < out@.len() ==> out@[k].completion_time > e.completion_time,
                decreases j,
            {
                j -= 1;
            }
            proof {
                lemma_insert_at(out@, e, j as int);
                let next = entries@.subrange(0, i + 1);
                assert(next.drop_last() =~= entries@.subrange(0, i as int));
                assert(sort_by_time(next) == insert_by_time(out@, e));
            }
            out.insert(j, e);
            i += 1;
        }
        assert(entries@.subrange(0, entries@.len() as int) =~= entries@);
        out
    }
}

impl Default for AppState {
    fn default() -> (r: AppState)
        ensures
            r.puzzles@.len() == 0,
            r.leaderboard@.len() == 0,
            r.wf(),
    {
        AppState::new()
    }
}

} // verus!
