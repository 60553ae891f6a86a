use vstd::prelude::*;

verus! {

/// Opaque caller handle, the key of the per-caller score store. Two plain
/// words give it room for a 160-bit ledger account address; the store only
/// ever compares handles for equality.
#[derive(Clone, Copy, PartialEq, Eq, Structural, Hash, Debug, PartialOrd, Ord)]
pub struct Identity {
    pub hi: u64,
    pub lo: u128,
}

/// One stored score, keyed by the identity that earned it.
#[derive(Clone, Copy, PartialEq, Eq, Structural, Debug)]
pub struct ScoreEntry {
    pub who: Identity,
    pub score: u64,
}

/// The score an entry sequence associates with an identity: the score of the
/// first entry keyed by it, or 0 when no entry is (absence is
/// indistinguishable from a recorded zero).
pub open spec fn seq_score_of(s: Seq<ScoreEntry>, who: Identity) -> u64
    decreases s.len(),
{
    if s.len() == 0 {
        0u64
    } else if s[0].who == who {
        s[0].score
    } else {
        seq_score_of(s.drop_first(), who)
    }
}

/// Durable mapping from identity to the most recent score recorded for it:
/// one entry per identity, last write wins, entries never deleted.
pub struct ScoreStore {
    pub entries: Vec<ScoreEntry>,
}

impl ScoreStore {
    /// Well-formedness: identities are unique (one entry per caller) and every
    /// stored score lies in the score range [0, 100].
    pub open spec fn wf(self) -> bool {
        &&& forall|i: int, j: int|
            0 <= i < j < self.entries@.len() ==> self.entries@[i].who != self.entries@[j].who
        &&& forall|i: int| 0 <= i < self.entries@.len() ==> self.entries@[i].score <= 100
    }

    /// The score stored for an identity, or 0 when none was ever recorded.
    pub open spec fn spec_score(self, who: Identity) -> u64 {
        seq_score_of(self.entries@, who)
    }

    /// An empty store: every identity reads as 0.
    pub fn new() -> (s: ScoreStore)
        ensures
            s.wf(),
            forall|w: Identity| #[trigger] s.spec_score(w) == 0,
    {
        let s = ScoreStore { entries: Vec::new() };
        s
    }

    /// The stored score for `who`, or the absence default 0.
    pub fn get_score(&self, who: Identity) -> (r: u64)
        requires
            self.wf(),
        ensures
            r == self.spec_score(who),
            r <= 100,
    {
        let n: usize = self.entries.len();
        let mut i: usize = 0;
        proof {
            assert(self.entries@.skip(0) =~= self.entries@);
        }
        while i < n
            invariant
                i <= n,
                n == self.entries@.len(),
                self.wf(),
                seq_score_of(self.entries@, who) == seq_score_of(
                    self.entries@.skip(i as int),
                    who,
                ),
            decreases n - i,
        {
            if self.entries[i].who == who {
                proof {
                    assert(self.entries@.skip(i as int)[0] == self.entries@[i as int]);
                }
                return self.entries[i].score;
            }
            proof {
                assert(self.entries@.skip(i as int).drop_first() =~= self.entries@.skip(
                    i as int + 1,
                ));
            }
            i = i + 1;
        }
        proof {
            assert(self.entries@.skip(n as int).len() == 0);
        }
        0
    }

    /// Upsert: after the call `who` reads as `score` and every other identity
    /// reads exactly as before. Always succeeds.
    pub fn record(&mut self, who: Identity, score: u64)
        requires
            old(self).wf(),
            score <= 100,
        ensures
            final(self).wf(),
            final(self).spec_score(who) == score,
            forall|w: Identity|
                w != who ==> #[trigger] final(self).spec_score(w) == old(self).spec_score(w),
    {
        let n: usize = self.entries.len();
        let mut i: usize = 0;
        while i < n
            invariant
                i <= n,
                n == self.entries@.len(),
                self.wf(),
                *self == *old(self),
                score <= 100,
                forall|j: int| 0 <= j < i ==> self.entries@[j].who != who,
            decreases n - i,
        {
            if self.entries[i].who == who {
                let entry = ScoreEntry { who, score };
                self.entries[i] = entry;
                proof {
                    let ghost s_old = old(self).entries@;
                    let ghost s_new = self.entries@;
                    assert(s_new == s_old.update(i as int, entry));
                    assert forall|a: int, b: int|
                        0 <= a < b < s_new.len() implies s_new[a].who != s_new[b].who by {
                        assert(s_old[a].who != s_old[b].who);
                        assert(s_new[a].who == s_old[a].who);
                        assert(s_new[b].who == s_old[b].who);
                    }
                    assert forall|j: int| 0 <= j < s_new.len() implies s_new[j].score <= 100 by {
                        if j != i as int {
                            assert(s_new[j] == s_old[j]);
                        }
                    }
                    lemma_seq_score_first_match(s_new, who, i as int);
                    assert forall|w: Identity| w != who implies #[trigger] seq_score_of(
                        s_new,
                        w,
                    ) == seq_score_of(s_old, w) by {
                        lemma_seq_score_update_other(s_old, i as int, entry, w);
                    }
                }
                return ;
            }
            i = i + 1;
        }
        let entry = ScoreEntry { who, score };
        self.entries.push(entry);
        proof {
            let ghost s_old = old(self).entries@;
            let ghost s_new = self.entries@;
            assert(s_new == s_old.push(entry));
            lemma_seq_score_first_match(s_new, who, n as int);
            assert forall|w: Identity| w != who implies #[trigger] seq_score_of(s_new, w)
                == seq_score_of(s_old, w) by {
                lemma_seq_score_push_other(s_old, entry, w);
            }
        }
    }
}

/// The first entry keyed by `who` is the one the store reads: if `s[k]` is
/// keyed by `who` and no earlier entry is, the stored score is `s[k].score`.
proof fn lemma_seq_score_first_match(s: Seq<ScoreEntry>, who: Identity, k: int)
    requires
        0 <= k < s.len(),
        s[k].who == who,
        forall|j: int| 0 <= j < k ==> s[j].who != who,
    ensures
        seq_score_of(s, who) == s[k].score,
    decreases k,
{
    if k > 0 {
        lemma_seq_score_first_match(s.drop_first(), who, k - 1);
    }
}

/// Replacing the entry at `i` with one under the same key leaves every other
/// identity's stored score unchanged.
proof fn lemma_seq_score_update_other(s: Seq<ScoreEntry>, i: int, e: ScoreEntry, w: Identity)
    requires
        0 <= i < s.len(),
        s[i].who == e.who,
        w != e.who,
    ensures
        seq_score_of(s.update(i, e), w) == seq_score_of(s, w),
    decreases i,
{
    if i == 0 {
        assert(s.update(0, e).drop_first() =~= s.drop_first());
    } else {
        assert(s.update(i, e)[0] == s[0]);
        if s[0].who != w {
            assert(s.update(i, e).drop_first() =~= s.drop_first().update(i - 1, e));
            lemma_seq_score_update_other(s.drop_first(), i - 1, e, w);
        }
    }
}

/// Appending an entry under a different key leaves an identity's stored score
/// unchanged.
proof fn lemma_seq_score_push_other(s: Seq<ScoreEntry>, e: ScoreEntry, w: Identity)
    requires
        w != e.who,
    ensures
        seq_score_of(s.push(e), w) == seq_score_of(s, w),
    decreases s.len(),
{
    if s.len() == 0 {
        assert(s.push(e)[0] == e);
        assert(s.push(e).drop_first() =~= s);
        assert(seq_score_of(s.push(e), w) == seq_score_of(s.push(e).drop_first(), w));
    } else {
        assert(s.push(e)[0] == s[0]);
        if s[0].who != w {
            assert(s.push(e).drop_first() =~= s.drop_first().push(e));
            lemma_seq_score_push_other(s.drop_first(), e, w);
            assert(seq_score_of(s.push(e), w) == seq_score_of(s.push(e).drop_first(), w));
        }
    }
}

} // verus!
