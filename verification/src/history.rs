//! Bounded, insertion-ordered history of update outcomes.
//!
//! The buffer keeps at most a configured number of entries; when full,
//! the oldest entry is evicted first. The reporting layer reads the most
//! recent entries, newest first.

use vstd::prelude::*;

use crate::providers::UpdateResult;

verus! {

/// The last `max` elements of `s`, all of `s` when it is shorter.
pub open spec fn last_up_to(s: Seq<UpdateResult>, max: nat) -> Seq<UpdateResult> {
    if s.len() <= max {
        s
    } else {
        s.skip(s.len() - max)
    }
}

/// What one append leaves in a buffer bounded by `max`.
pub open spec fn spec_push(s: Seq<UpdateResult>, max: nat, r: UpdateResult) -> Seq<UpdateResult> {
    last_up_to(s.push(r), max)
}

/// What a series of appends, oldest first, leaves in a buffer bounded by
/// `max` that started as `init`.
pub open spec fn history_after(
    init: Seq<UpdateResult>,
    rs: Seq<UpdateResult>,
    max: nat,
) -> Seq<UpdateResult>
    decreases rs.len(),
{
    if rs.len() == 0 {
        init
    } else {
        spec_push(history_after(init, rs.drop_last(), max), max, rs.last())
    }
}

/// An append keeps the bound and keeps only the most recent entries:
/// pushing onto a suffix is pushing and then taking the suffix.
proof fn lemma_push_of_suffix(s: Seq<UpdateResult>, max: nat, r: UpdateResult)
    ensures
        spec_push(last_up_to(s, max), max, r) =~= last_up_to(s.push(r), max),
{
}

/// After any series of appends, a buffer that started within its bound
/// holds exactly the most recent entries, in order: the last `max` of the
/// initial contents followed by the appended entries.
pub proof fn lemma_history_after(init: Seq<UpdateResult>, rs: Seq<UpdateResult>, max: nat)
    requires
        init.len() <= max,
    ensures
        history_after(init, rs, max) =~= last_up_to(init + rs, max),
    decreases rs.len(),
{
    if rs.len() == 0 {
        assert(init + rs =~= init);
    } else {
        lemma_history_after(init, rs.drop_last(), max);
        lemma_push_of_suffix(init + rs.drop_last(), max, rs.last());
        assert((init + rs.drop_last()).push(rs.last()) =~= init + rs);
    }
}

/// After more appends than the bound, the buffer holds exactly the bound
/// many most recent appended entries, in chronological order.
pub proof fn lemma_history_retains_recent(init: Seq<UpdateResult>, rs: Seq<UpdateResult>, max: nat)
    requires
        init.len() <= max,
        rs.len() >= max,
    ensures
        history_after(init, rs, max).len() == max,
        history_after(init, rs, max) =~= rs.skip(rs.len() - max),
{
    lemma_history_after(init, rs, max);
    assert(last_up_to(init + rs, max) =~= rs.skip(rs.len() - max));
}

/// Bounded, insertion-ordered buffer of update outcomes.
#[derive(Debug)]
pub struct History {
    /// The kept outcomes, oldest first.
    pub entries: Vec<UpdateResult>,
    /// Most entries kept at once.
    pub max_entries: usize,
}

impl History {
    /// The buffer never holds more than its bound.
    pub open spec fn wf(self) -> bool {
        self.entries@.len() <= self.max_entries
    }

    /// An empty buffer with the given bound.
    pub fn new(max_entries: usize) -> (r: Self)
        ensures
            r.wf(),
            r.max_entries == max_entries,
            r.entries@.len() == 0,
    {
        History { entries: Vec::new(), max_entries }
    }

    /// How many outcomes the buffer holds.
    pub fn len(&self) -> (r: usize)
        ensures
            r == self.entries@.len(),
    {
        self.entries.len()
    }

    /// Append one outcome, evicting the oldest entry when the buffer is
    /// full.
    pub fn push(&mut self, r: UpdateResult)
        requires
            old(self).wf(),
        ensures
            final(self).wf(),
            final(self).max_entries == old(self).max_entries,
            final(self).entries@ == spec_push(
                old(self).entries@,
                old(self).max_entries as nat,
                r,
            ),
    {
        if self.max_entries == 0 {
            proof {
                assert(spec_push(self.entries@, self.max_entries as nat, r) =~= self.entries@);
            }
            return ;
        }
        if self.entries.len() == self.max_entries {
            self.entries.remove(0);
            proof {
                assert(self.entries@.push(r).len() <= self.max_entries);
            }
        }
        let ghost before = self.entries@;
        self.entries.push(r);
        proof {
            assert(self.entries@ =~= spec_push(
                old(self).entries@,
                old(self).max_entries as nat,
                r,
            ));
        }
    }

    /// The most recent outcomes, newest first, at most `limit` of them.
    pub fn recent(&self, limit: usize) -> (r: Vec<UpdateResult>)
        ensures
            r@.len() == if limit <= self.entries@.len() {
                limit as int
            } else {
                self.entries@.len() as int
            },
            forall|i: int|
                0 <= i < r@.len() ==> r@[i] == self.entries@[self.entries@.len() - 1 - i],
    {
        let n = self.entries.len();
        let count = if limit < n {
            limit
        } else {
            n
        };
        let mut out: Vec<UpdateResult> = Vec::new();
        let mut i: usize = 0;
        while i < count
            invariant
                count <= n,
                n == self.entries@.len(),
                i <= count,
                out@.len() == i,
                forall|j: int| 0 <= j < i ==> out@[j] == self.entries@[n - 1 - j],
            decreases count - i,
        {
            let entry = self.entries[n - 1 - i].clone();
            out.push(entry);
            i = i + 1;
        }
        out
    }

    /// The most recent outcome, if any.
    pub fn last(&self) -> (r: Option<&UpdateResult>)
        ensures
            self.entries@.len() == 0 ==> r is None,
            self.entries@.len() > 0 ==> (r matches Some(e) && *e == self.entries@.last()),
    {
        if self.entries.len() == 0 {
            None
        } else {
            Some(&self.entries[self.entries.len() - 1])
        }
    }
}

} // verus!
