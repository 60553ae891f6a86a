//! A bounded risk score computed from five weighted features, with the most
//! recent score persisted per caller identity and a global query counter.
//!
//! The host runtime that supplies the caller's identity and makes state
//! durable is not modeled here: it constructs one [`ArbAI`] value at state
//! initialization and threads it, serialized, through every call.

pub mod engine;
pub mod store;

use vstd::prelude::*;

use crate::engine::compute_score;
use crate::engine::score_of;
use crate::store::Identity;
use crate::store::ScoreStore;

verus! {

/// The risk-scoring state: the per-caller score store and the global count of
/// accepted queries. Owned by the runtime and handed to every call.
pub struct ArbAI {
    pub query_count: u64,
    pub scores: ScoreStore,
}

impl ArbAI {
    /// Well-formedness: the score store keeps one entry per identity and every
    /// stored score lies in [0, 100].
    pub open spec fn wf(self) -> bool {
        self.scores.wf()
    }

    /// The score stored for an identity, or 0 when none was ever recorded.
    pub open spec fn spec_score(self, who: Identity) -> u64 {
        self.scores.spec_score(who)
    }

    /// Initial state: counter at 0 and every identity reading as 0.
    pub fn new() -> (c: ArbAI)
        ensures
            c.wf(),
            c.query_count == 0,
            forall|w: Identity| #[trigger] c.spec_score(w) == 0,
    {
        ArbAI { query_count: 0, scores: ScoreStore::new() }
    }

    /// Score five features for `caller`, record the result under the caller's
    /// identity, and count the query. A sequence of any other length scores 0
    /// and leaves the state untouched, indistinguishable from a genuine zero.
    pub fn query_risk(&mut self, caller: Identity, inputs: &Vec<u64>) -> (score: u64)
        requires
            old(self).wf(),
            inputs@.len() == 5 ==> old(self).query_count < u64::MAX,
        ensures
            final(self).wf(),
            score == score_of(inputs@),
            score <= 100,
            inputs@.len() == 5 ==> final(self).spec_score(caller) == score,
            inputs@.len() == 5 ==> final(self).query_count == old(self).query_count + 1,
            inputs@.len() != 5 ==> score == 0,
            inputs@.len() != 5 ==> final(self).spec_score(caller) == old(self).spec_score(caller),
            inputs@.len() != 5 ==> final(self).query_count == old(self).query_count,
            forall|w: Identity|
                w != caller ==> #[trigger] final(self).spec_score(w) == old(self).spec_score(w),
    {
        if inputs.len() != 5 {
            return 0;
        }
        let score = compute_score(inputs);
        self.scores.record(caller, score);
        self.query_count = self.query_count + 1;
        score
    }

    /// The stored score for `who`, or the absence default 0. Read-only: the
    /// result is a function of the state alone.
    pub fn get_score(&self, who: Identity) -> (r: u64)
        requires
            self.wf(),
        ensures
            r == self.spec_score(who),
            r <= 100,
    {
        self.scores.get_score(who)
    }

    /// The number of queries accepted so far. Read-only: the result is a
    /// function of the state alone.
    pub fn get_query_count(&self) -> (r: u64)
        ensures
            r == self.query_count,
    {
        self.query_count
    }

    /// Fixed identifying name.
    pub fn name() -> (r: String)
        ensures
            r@ == "ArbAI"@,
    {
        String::from_str("ArbAI")
    }

    /// Fixed version string.
    pub fn version() -> (r: String)
        ensures
            r@ == "0.1.0"@,
    {
        String::from_str("0.1.0")
    }
}

} // verus!
