use arbai::store::Identity;
use arbai::store::ScoreStore;
use arbai::ArbAI;

fn id(n: u64) -> Identity {
    Identity { hi: n, lo: n as u128 }
}

#[test]
fn weights_all_hundred() {
    let mut c = ArbAI::new();
    let score = c.query_risk(id(1), &vec![100, 100, 100, 100, 100]);
    assert_eq!(score, 100);
}

#[test]
fn weights_all_zero() {
    let mut c = ArbAI::new();
    let score = c.query_risk(id(1), &vec![0, 0, 0, 0, 0]);
    assert_eq!(score, 0);
}

#[test]
fn exact_weighted_sum() {
    let mut c = ArbAI::new();
    // (10*20 + 20*30 + 30*20 + 40*15 + 50*15) / 100 = 2750 / 100 = 27
    assert_eq!(c.query_risk(id(1), &vec![10, 20, 30, 40, 50]), 27);
    // floor division: 20 / 100 = 0, 100 / 100 = 1
    assert_eq!(c.query_risk(id(1), &vec![1, 0, 0, 0, 0]), 0);
    assert_eq!(c.query_risk(id(1), &vec![5, 0, 0, 0, 0]), 1);
    assert_eq!(c.query_risk(id(1), &vec![1, 1, 1, 1, 1]), 1);
}

#[test]
fn clamp_activation() {
    let mut c = ArbAI::new();
    // raw = 1000 * 20 / 100 = 200, clamped to 100
    assert_eq!(c.query_risk(id(1), &vec![1000, 0, 0, 0, 0]), 100);
}

#[test]
fn range_invariant_on_oversized_features() {
    let mut c = ArbAI::new();
    let m = u64::MAX;
    let score = c.query_risk(id(1), &vec![m, m, m, m, m]);
    assert_eq!(score, 100);
    let score = c.query_risk(id(2), &vec![m, 0, m, 0, m]);
    assert!(score <= 100);
}

#[test]
fn arity_guard_returns_zero_and_leaves_state() {
    let mut c = ArbAI::new();
    assert_eq!(c.query_risk(id(1), &vec![100, 100, 100, 100, 100]), 100);
    let count_before = c.get_query_count();
    let score_before = c.get_score(id(1));
    assert_eq!(c.query_risk(id(1), &vec![]), 0);
    assert_eq!(c.query_risk(id(1), &vec![100, 100, 100, 100]), 0);
    assert_eq!(c.query_risk(id(1), &vec![100, 100, 100, 100, 100, 100]), 0);
    assert_eq!(c.get_query_count(), count_before);
    assert_eq!(c.get_score(id(1)), score_before);
}

#[test]
fn persistence_until_overwritten() {
    let mut c = ArbAI::new();
    let a = id(10);
    let b = id(20);
    let s = c.query_risk(a, &vec![50, 50, 50, 50, 50]);
    assert_eq!(s, 50);
    assert_eq!(c.get_score(a), 50);
    // a call by another identity leaves a's score in place
    let t = c.query_risk(b, &vec![100, 100, 100, 100, 100]);
    assert_eq!(t, 100);
    assert_eq!(c.get_score(a), 50);
    assert_eq!(c.get_score(b), 100);
    // a later call by a overwrites, last write wins
    let u = c.query_risk(a, &vec![0, 0, 0, 0, 0]);
    assert_eq!(u, 0);
    assert_eq!(c.get_score(a), 0);
    assert_eq!(c.get_score(b), 100);
}

#[test]
fn counter_increments_once_per_accepted_query() {
    let mut c = ArbAI::new();
    assert_eq!(c.get_query_count(), 0);
    c.query_risk(id(1), &vec![1, 2, 3, 4, 5]);
    assert_eq!(c.get_query_count(), 1);
    c.query_risk(id(2), &vec![1, 2, 3, 4, 5]);
    assert_eq!(c.get_query_count(), 2);
    c.query_risk(id(1), &vec![9, 9, 9, 9, 9]);
    assert_eq!(c.get_query_count(), 3);
    // an arity-mismatched call is not counted
    c.query_risk(id(3), &vec![1, 2, 3]);
    assert_eq!(c.get_query_count(), 3);
}

#[test]
fn absence_defaults_to_zero() {
    let c = ArbAI::new();
    assert_eq!(c.get_score(id(1)), 0);
    assert_eq!(c.get_score(id(999)), 0);
    assert_eq!(c.get_query_count(), 0);
}

#[test]
fn reads_are_idempotent() {
    let mut c = ArbAI::new();
    c.query_risk(id(7), &vec![40, 40, 40, 40, 40]);
    let first_score = c.get_score(id(7));
    let first_count = c.get_query_count();
    for _ in 0..3 {
        assert_eq!(c.get_score(id(7)), first_score);
        assert_eq!(c.get_query_count(), first_count);
    }
}

#[test]
fn recorded_zero_indistinguishable_from_absence() {
    let mut c = ArbAI::new();
    c.query_risk(id(5), &vec![0, 0, 0, 0, 0]);
    assert_eq!(c.get_score(id(5)), 0);
    assert_eq!(c.get_score(id(6)), 0);
}

#[test]
fn name_and_version() {
    assert_eq!(ArbAI::name(), "ArbAI");
    assert_eq!(ArbAI::version(), "0.1.0");
}

#[test]
fn store_upsert_and_lookup() {
    let mut s = ScoreStore::new();
    let a = id(1);
    let b = id(2);
    assert_eq!(s.get_score(a), 0);
    s.record(a, 33);
    s.record(b, 66);
    assert_eq!(s.get_score(a), 33);
    assert_eq!(s.get_score(b), 66);
    s.record(a, 44);
    assert_eq!(s.get_score(a), 44);
    assert_eq!(s.get_score(b), 66);
}

#[test]
fn identities_differ_on_either_word() {
    let mut c = ArbAI::new();
    let a = Identity { hi: 1, lo: 0 };
    let b = Identity { hi: 0, lo: 1 };
    c.query_risk(a, &vec![100, 100, 100, 100, 100]);
    assert_eq!(c.get_score(a), 100);
    assert_eq!(c.get_score(b), 0);
}
