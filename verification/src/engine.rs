use vstd::prelude::*;

verus! {

/// Weighted sum of a five-feature vector under the fixed linear model
/// (weights 20, 30, 20, 15, 15, summing to 100), floor-divided by 100.
pub open spec fn weighted_raw(f: Seq<u64>) -> int
    recommends
        f.len() == 5,
{
    ((f[0] as int) * 20 + (f[1] as int) * 30 + (f[2] as int) * 20 + (f[3] as int) * 15 + (f[4]
        as int) * 15) / 100
}

/// The score a feature sequence maps to: the weighted sum clamped to 100
/// from above, and 0 for any sequence that is not exactly five features long.
pub open spec fn score_of(f: Seq<u64>) -> int {
    if f.len() != 5 {
        0
    } else if weighted_raw(f) > 100 {
        100
    } else {
        weighted_raw(f)
    }
}

/// Range invariant: every feature sequence, of any length and with features of
/// any magnitude, maps to a score between 0 and 100.
pub proof fn lemma_score_of_range(f: Seq<u64>)
    ensures
        0 <= score_of(f) <= 100,
{
}

/// Weight correctness: the five weights sum to exactly 100, so on features
/// inside the intended [0, 100] domain the weighted sum already lies in
/// [0, 100] and the clamp is a no-op; five features of 100 score exactly 100.
pub proof fn lemma_in_domain_no_clamp(f: Seq<u64>)
    requires
        f.len() == 5,
        forall|i: int| 0 <= i < 5 ==> f[i] <= 100,
    ensures
        weighted_raw(f) <= 100,
        score_of(f) == weighted_raw(f),
        (forall|i: int| 0 <= i < 5 ==> f[i] == 100) ==> score_of(f) == 100,
{
    assert(f[0] <= 100 && f[1] <= 100 && f[2] <= 100 && f[3] <= 100 && f[4] <= 100);
}

/// Clamp activation: whenever the weighted sum of a five-feature vector
/// exceeds 100, the score is exactly 100 rather than the raw sum.
pub proof fn lemma_clamp_activation(f: Seq<u64>)
    requires
        f.len() == 5,
        weighted_raw(f) > 100,
    ensures
        score_of(f) == 100,
{
}

/// Pure scoring function: validates the arity, weights the features, and
/// clamps the result. Intermediate arithmetic is carried in 128 bits, which
/// cannot overflow for 64-bit features.
pub fn compute_score(inputs: &Vec<u64>) -> (score: u64)
    ensures
        score == score_of(inputs@),
        score <= 100,
{
    if inputs.len() != 5 {
        return 0;
    }
    let f0: u128 = inputs[0] as u128;
    let f1: u128 = inputs[1] as u128;
    let f2: u128 = inputs[2] as u128;
    let f3: u128 = inputs[3] as u128;
    let f4: u128 = inputs[4] as u128;
    let raw: u128 = (f0 * 20 + f1 * 30 + f2 * 20 + f3 * 15 + f4 * 15) / 100;
    if raw > 100 {
        100
    } else {
        raw as u64
    }
}

} // verus!
