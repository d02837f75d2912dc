use pow_header::adjuster::{adjust, challenge_height, next_difficulty};
use pow_header::error::Error;
use pow_header::header::{Header, HeaderBuilder};
use pow_header::params::ConsensusParameters;
use pow_header::u256::U256;

fn standard() -> ConsensusParameters {
    ConsensusParameters::default()
}

fn challenge_at(number: u64, timestamp: u64) -> Header {
    HeaderBuilder::default()
        .number(number)
        .timestamp(timestamp)
        .build()
}

#[test]
fn challenge_height_examples() {
    let p = standard();
    assert_eq!(challenge_height(&p, 65), 10);
    assert_eq!(challenge_height(&p, 105), 50);
    assert_eq!(challenge_height(&p, 5), 0);
    assert_eq!(challenge_height(&p, 60), 10);
    assert_eq!(challenge_height(&p, 69), 10);
    assert_eq!(challenge_height(&p, 100), 50);
    assert_eq!(challenge_height(&p, 109), 50);
    assert_eq!(challenge_height(&p, 70), 20);
    assert_eq!(challenge_height(&p, 49), 0);
    assert_eq!(challenge_height(&p, 0), 0);
}

#[test]
fn pace_exactly_on_target_leaves_difficulty_unchanged() {
    let p = standard();
    // Candidate at height 70, challenge block at the formula's height for 70.
    let ch_height = challenge_height(&p, 70);
    assert_eq!(ch_height, 20);
    let challenge = challenge_at(ch_height, 0);
    // Elapsed time exactly (70 - 10) * TIME_STEP still rounds to pace 1.
    let elapsed = (70 - 10) * p.time_step;
    let old = U256::from_u64(1000);
    let adjusted = next_difficulty(&p, &old, &challenge, 70, elapsed);
    assert_eq!(adjusted, old);
    // And exactly expected elapsed time as well.
    let exact = (70 - ch_height) * p.time_step;
    assert_eq!(next_difficulty(&p, &old, &challenge, 70, exact), old);
}

#[test]
fn double_elapsed_time_decreases_difficulty_within_bounds() {
    let p = standard();
    let challenge = challenge_at(20, 0);
    let old_value: u64 = 1_000_000;
    let old = U256::from_u64(old_value);
    let expected_duration = (70 - 20) * p.time_step;
    let adjusted = next_difficulty(&p, &old, &challenge, 70, 2 * expected_duration);
    // One increment step down: old / increment_divisor.
    assert_eq!(adjusted, U256::from_u64(999_900));
    let decrease = old_value - 999_900;
    assert!(decrease <= old_value / p.difficulty_bound_divisor);
    assert!(decrease * 100 <= old_value * p.limit);
    assert!(999_900 >= p.min_difficulty);
}

#[test]
fn fast_chain_increases_difficulty() {
    let p = standard();
    let challenge = challenge_at(20, 0);
    let old = U256::from_u64(1_000_000);
    // Far less elapsed time than expected: one increment step up.
    let adjusted = next_difficulty(&p, &old, &challenge, 70, 100);
    assert_eq!(adjusted, U256::from_u64(1_000_100));
}

#[test]
fn candidate_clocked_before_challenge_counts_as_no_time() {
    let p = standard();
    let challenge = challenge_at(20, 5000);
    let old = U256::from_u64(1_000_000);
    let adjusted = next_difficulty(&p, &old, &challenge, 70, 100);
    assert_eq!(adjusted, U256::from_u64(1_000_100));
}

#[test]
fn floor_holds_at_minimum_difficulty() {
    // A policy aggressive enough to drive the value to the floor in one step.
    let p = ConsensusParameters {
        time_step: 250,
        max_time_deviat: 30_000,
        epoch_len: 10,
        height_shift: 50,
        increment_divisor: 1,
        threshold: 1,
        difficulty_bound_divisor: 1,
        limit: 200,
        min_difficulty: 500,
    };
    let challenge = challenge_at(20, 0);
    let old = U256::from_u64(600);
    let adjusted = next_difficulty(&p, &old, &challenge, 70, 10_000_000);
    assert_eq!(adjusted, U256::from_u64(500));
}

#[test]
fn adjust_reports_missing_challenge_as_retryable() {
    let p = standard();
    let old = U256::from_u64(1000);
    let r = adjust(&p, &old, None, 70, 15_000);
    assert_eq!(r, Err(Error::ChallengeLookupFailure));
}

#[test]
fn adjust_with_challenge_matches_next_difficulty() {
    let p = standard();
    let challenge = challenge_at(20, 0);
    let old = U256::from_u64(1000);
    let direct = next_difficulty(&p, &old, &challenge, 70, 15_000);
    let via_adjust = adjust(&p, &old, Some(&challenge), 70, 15_000);
    assert_eq!(via_adjust, Ok(direct));
}

#[test]
fn timestamp_deviation_check() {
    let p = standard();
    assert!(p.check_timestamp(10_000, 20_000).is_ok());
    assert!(p.check_timestamp(50_000, 25_000).is_ok());
    assert_eq!(
        p.check_timestamp(100_000, 20_000),
        Err(Error::TimeDeviationError)
    );
    assert_eq!(
        p.check_timestamp(0, 40_000),
        Err(Error::TimeDeviationError)
    );
}

#[test]
fn difficulty_floor_check() {
    let p = standard();
    assert!(p.check_difficulty(&U256::from_u64(64)).is_ok());
    assert!(p.check_difficulty(&U256 { l0: 0, l1: 1, l2: 0, l3: 0 }).is_ok());
    assert_eq!(
        p.check_difficulty(&U256::from_u64(63)),
        Err(Error::InvalidDifficulty)
    );
    assert_eq!(
        p.check_difficulty(&U256::zero()),
        Err(Error::InvalidDifficulty)
    );
}
