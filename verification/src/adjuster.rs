//! The epoch-based, bounded difficulty retarget rule: challenge-block
//! selection and the pure adjustment function a new candidate header must
//! satisfy.

use crate::error::Error;
use crate::header::Header;
use crate::params::ConsensusParameters;
use crate::u256::{pow2_256, U256};
use vstd::arithmetic::div_mod::{
    lemma_fundamental_div_mod, lemma_hoist_over_denominator, lemma_mod_bound,
};
use vstd::arithmetic::mul::{lemma_mul_inequality, lemma_mul_upper_bound};
use vstd::prelude::*;

verus! {

/// The height whose block serves as the time baseline for a candidate at
/// `height`: the candidate's epoch floor, shifted down, never below genesis.
pub open spec fn spec_challenge_height(p: ConsensusParameters, height: u64) -> int
    recommends
        p.wf(),
{
    let floor = (height as int / p.epoch_len as int) * p.epoch_len as int;
    if floor >= p.height_shift {
        floor - p.height_shift
    } else {
        0
    }
}

/// Milliseconds the candidate claims have passed since the challenge block;
/// a candidate clocked before its challenge block counts as no time passed.
pub open spec fn spec_actual_duration(challenge_ts: u64, candidate_ts: u64) -> int {
    if candidate_ts >= challenge_ts {
        candidate_ts - challenge_ts
    } else {
        0
    }
}

/// The retarget factor: how many increment steps to move, and in which
/// direction. Zero when the chain ran at pace (`actual == expected`),
/// positive when it ran fast, negative when slow, clamped below at the
/// relative-change limit.
pub open spec fn spec_retarget_factor(p: ConsensusParameters, expected: int, actual: int) -> int
    recommends
        expected >= 1,
{
    let f = p.threshold - actual / expected;
    if f < -(p.limit as int) {
        -(p.limit as int)
    } else {
        f
    }
}

/// The largest magnitude one adjustment may move: the lesser of
/// `old / difficulty_bound_divisor` and `limit` percent of `old`.
pub open spec fn spec_change_cap(p: ConsensusParameters, old: nat) -> nat
    recommends
        p.wf(),
{
    let bound = old / (p.difficulty_bound_divisor as nat);
    let rel = if p.limit >= 100 {
        old as int
    } else {
        old * p.limit / 100
    };
    if bound <= rel {
        bound
    } else {
        rel as nat
    }
}

/// The difficulty a candidate must satisfy: the old difficulty nudged by
/// whole increment steps toward the pace the chain actually ran at, the move
/// clamped in magnitude and relative size, and the result floored at the
/// minimum difficulty.
pub open spec fn spec_next_difficulty(
    p: ConsensusParameters,
    old: nat,
    challenge_ts: u64,
    challenge_number: u64,
    candidate_number: u64,
    candidate_ts: u64,
) -> nat
    recommends
        p.wf(),
        challenge_number < candidate_number,
{
    let expected = (candidate_number - challenge_number) * p.time_step;
    let actual = spec_actual_duration(challenge_ts, candidate_ts);
    let f = spec_retarget_factor(p, expected, actual);
    let mag = if f >= 0 {
        f
    } else {
        -f
    };
    let step = (old / (p.increment_divisor as nat)) * mag;
    let cap = spec_change_cap(p, old);
    let delta = if step <= cap {
        step
    } else {
        cap as int
    };
    let moved = if f >= 0 {
        old + delta
    } else {
        old - delta
    };
    let floored = if moved >= p.min_difficulty {
        moved
    } else {
        p.min_difficulty as int
    };
    floored as nat
}

/// The challenge height for a candidate at `height`.
pub fn challenge_height(p: &ConsensusParameters, height: u64) -> (r: u64)
    requires
        p.wf(),
    ensures
        r == spec_challenge_height(*p, height),
{
    let q: u64 = height / p.epoch_len;
    proof {
        lemma_fundamental_div_mod(height as int, p.epoch_len as int);
        lemma_mod_bound(height as int, p.epoch_len as int);
    }
    let floor: u64 = q * p.epoch_len;
    if floor >= p.height_shift {
        floor - p.height_shift
    } else {
        0
    }
}

/// The clamp magnitude for one adjustment of `old`.
fn change_cap(p: &ConsensusParameters, old: &U256) -> (r: U256)
    requires
        p.wf(),
    ensures
        r.val() == spec_change_cap(*p, old.val()),
        r.val() <= old.val(),
{
    let (bound, _bound_rem) = old.div_rem_u64(p.difficulty_bound_divisor);
    proof {
        lemma_fundamental_div_mod(old.val() as int, p.difficulty_bound_divisor as int);
        lemma_mod_bound(old.val() as int, p.difficulty_bound_divisor as int);
        assert(bound.val() <= p.difficulty_bound_divisor * bound.val()) by (nonlinear_arith)
            requires
                p.difficulty_bound_divisor >= 1,
                bound.val() >= 0,
        ;
    }
    let rel: U256 = if p.limit >= 100 {
        *old
    } else {
        let (q100, r100) = old.div_rem_u64(100);
        proof {
            lemma_fundamental_div_mod(old.val() as int, 100);
            lemma_mul_inequality(p.limit as int, 100, q100.val() as int);
            crate::u256::lemma_u256_val_bound(*old);
            lemma_mul_upper_bound(r100 as int, 99, p.limit as int, 99);
            assert((r100 * p.limit) / 100 <= r100) by (nonlinear_arith)
                requires
                    r100 < 100,
                    p.limit < 100,
            ;
        }
        let scaled = match q100.mul_u64(p.limit) {
            Some(v) => v,
            None => {
                proof {
                    assert(false);
                }
                U256::zero()
            },
        };
        let small: u64 = r100 * p.limit / 100;
        let rel = scaled.add(&U256::from_u64(small));
        proof {
            assert(old.val() * p.limit == (r100 * p.limit) + (q100.val() * p.limit) * 100)
                by (nonlinear_arith)
                requires
                    old.val() == 100 * q100.val() + r100,
            ;
            lemma_hoist_over_denominator(
                (r100 * p.limit) as int,
                (q100.val() * p.limit) as int,
                100,
            );
            assert(rel.val() == old.val() * p.limit / 100);
        }
        rel
    };
    if bound.le(&rel) {
        bound
    } else {
        rel
    }
}

/// The difficulty a candidate at `candidate_number` must satisfy, given the
/// difficulty to adjust from and the challenge block's header. A pure
/// function of its arguments; no internal state.
pub fn next_difficulty(
    p: &ConsensusParameters,
    old_difficulty: &U256,
    challenge: &Header,
    candidate_number: u64,
    candidate_timestamp: u64,
) -> (r: U256)
    requires
        p.wf(),
        challenge@.raw.number < candidate_number,
        old_difficulty.val() + old_difficulty.val() / (p.difficulty_bound_divisor as nat)
            < pow2_256(),
    ensures
        r.val() == spec_next_difficulty(
            *p,
            old_difficulty.val(),
            challenge@.raw.timestamp,
            challenge@.raw.number,
            candidate_number,
            candidate_timestamp,
        ),
{
    let challenge_number: u64 = challenge.number();
    let challenge_ts: u64 = challenge.timestamp();
    let gap: u64 = candidate_number - challenge_number;
    proof {
        lemma_mul_upper_bound(
            gap as int,
            0xffffffffffffffff,
            p.time_step as int,
            0xffffffffffffffff,
        );
        assert(gap * p.time_step >= 1) by (nonlinear_arith)
            requires
                gap >= 1,
                p.time_step >= 1,
        ;
    }
    let expected: u128 = gap as u128 * p.time_step as u128;
    let actual64: u64 = if candidate_timestamp >= challenge_ts {
        candidate_timestamp - challenge_ts
    } else {
        0
    };
    let q: u128 = actual64 as u128 / expected;
    proof {
        lemma_fundamental_div_mod(actual64 as int, expected as int);
        lemma_mod_bound(actual64 as int, expected as int);
        assert(q <= expected * q) by (nonlinear_arith)
            requires
                expected >= 1,
                q >= 0,
        ;
    }
    let raw_f: i128 = p.threshold as i128 - q as i128;
    let f: i128 = if raw_f < -(p.limit as i128) {
        -(p.limit as i128)
    } else {
        raw_f
    };
    let mag: u64 = if f >= 0 {
        f as u64
    } else {
        (-f) as u64
    };
    let (step_base, _step_rem) = old_difficulty.div_rem_u64(p.increment_divisor);
    let cap = change_cap(p, old_difficulty);
    let delta: U256 = match step_base.mul_u64(mag) {
        Some(step) => if step.le(&cap) {
            step
        } else {
            cap
        },
        None => {
            proof {
                crate::u256::lemma_u256_val_bound(cap);
            }
            cap
        },
    };
    let moved: U256 = if f >= 0 {
        old_difficulty.add(&delta)
    } else {
        old_difficulty.sub(&delta)
    };
    let floor = U256::from_u64(p.min_difficulty);
    if floor.le(&moved) {
        moved
    } else {
        floor
    }
}

/// Adjusts from a chain-index lookup result: a missing challenge header is
/// the retryable `ChallengeLookupFailure`, never a panic.
pub fn adjust(
    p: &ConsensusParameters,
    old_difficulty: &U256,
    challenge: Option<&Header>,
    candidate_number: u64,
    candidate_timestamp: u64,
) -> (r: Result<U256, Error>)
    requires
        p.wf(),
        old_difficulty.val() + old_difficulty.val() / (p.difficulty_bound_divisor as nat)
            < pow2_256(),
        (challenge matches Some(c) ==> c@.raw.number < candidate_number),
    ensures
        (r is Ok) == (challenge is Some),
        (challenge matches Some(c) ==> r matches Ok(d) && d.val() == spec_next_difficulty(
            *p,
            old_difficulty.val(),
            c@.raw.timestamp,
            c@.raw.number,
            candidate_number,
            candidate_timestamp,
        )),
        (r matches Err(e) ==> e == Error::ChallengeLookupFailure),
{
    match challenge {
        Some(c) => Ok(next_difficulty(p, old_difficulty, c, candidate_number, candidate_timestamp)),
        None => Err(Error::ChallengeLookupFailure),
    }
}

/// Law: every adjustment is bounded. Starting at or above the floor, the
/// move is at most `old / difficulty_bound_divisor` in magnitude and at most
/// `limit` percent of `old`, and the result never drops below the floor.
pub proof fn lemma_adjustment_bounds(
    p: ConsensusParameters,
    old: nat,
    challenge_ts: u64,
    challenge_number: u64,
    candidate_number: u64,
    candidate_ts: u64,
)
    requires
        p.wf(),
        challenge_number < candidate_number,
        old >= p.min_difficulty,
    ensures
        ({
            let nd = spec_next_difficulty(
                p,
                old,
                challenge_ts,
                challenge_number,
                candidate_number,
                candidate_ts,
            );
            let bound = old / (p.difficulty_bound_divisor as nat);
            &&& nd >= p.min_difficulty
            &&& nd <= old + bound
            &&& nd + bound >= old
            &&& (nd >= old ==> (nd - old) * 100 <= old * p.limit)
            &&& (nd <= old ==> (old - nd) * 100 <= old * p.limit)
        }),
{
    let expected = (candidate_number - challenge_number) * p.time_step;
    let actual = spec_actual_duration(challenge_ts, candidate_ts);
    let f = spec_retarget_factor(p, expected, actual);
    let cap = spec_change_cap(p, old);
    let bound = old / (p.difficulty_bound_divisor as nat);
    assert(cap <= bound);
    if p.limit >= 100 {
        assert(cap * 100 <= old * 100);
        lemma_mul_inequality(100, p.limit as int, old as int);
    } else {
        let rel = old * p.limit / 100;
        lemma_fundamental_div_mod((old * p.limit) as int, 100);
        assert(cap <= rel);
        assert(cap * 100 <= old * p.limit);
    }
    assert(cap * 100 <= old * p.limit);
}

} // verus!
