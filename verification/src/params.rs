//! The fixed numeric consensus policy, passed explicitly into every
//! component that needs it; no global state.

use crate::error::Error;
use crate::u256::U256;
use vstd::prelude::*;

verus! {

/// The numeric policy of a chain: pacing, challenge lookup, and the bounds
/// of the difficulty retarget rule.
#[derive(Clone, Copy, Debug, PartialEq, Eq, Structural)]
pub struct ConsensusParameters {
    /// Target milliseconds between blocks.
    pub time_step: u64,
    /// Largest allowed deviation, in milliseconds, between a declared
    /// timestamp and the validator's expected clock value.
    pub max_time_deviat: u64,
    /// Width of a challenge-lookup window of heights.
    pub epoch_len: u64,
    /// How far below the epoch floor the challenge block sits.
    pub height_shift: u64,
    /// Divisor turning the old difficulty into one retarget step.
    pub increment_divisor: u64,
    /// The pace ratio at which difficulty is left unchanged.
    pub threshold: u64,
    /// Divisor bounding the magnitude of one adjustment.
    pub difficulty_bound_divisor: u64,
    /// Largest relative change of one adjustment, in percent.
    pub limit: u64,
    /// The difficulty floor.
    pub min_difficulty: u64,
}

impl ConsensusParameters {
    /// The divisors and the pace are positive, so every quantity of the
    /// retarget rule is defined.
    pub open spec fn wf(self) -> bool {
        self.time_step >= 1 && self.epoch_len >= 1 && self.increment_divisor >= 1
            && self.difficulty_bound_divisor >= 1
    }

    /// Whether a declared timestamp lies within the allowed deviation from
    /// the expected clock value, on either side.
    pub fn check_timestamp(&self, declared: u64, expected: u64) -> (r: Result<(), Error>)
        ensures
            (r is Ok) == (if declared >= expected {
                declared - expected <= self.max_time_deviat
            } else {
                expected - declared <= self.max_time_deviat
            }),
            (r matches Err(e) ==> e == Error::TimeDeviationError),
    {
        let gap: u64 = if declared >= expected {
            declared - expected
        } else {
            expected - declared
        };
        if gap <= self.max_time_deviat {
            Ok(())
        } else {
            Err(Error::TimeDeviationError)
        }
    }

    /// Whether a declared difficulty meets the consensus floor.
    pub fn check_difficulty(&self, difficulty: &U256) -> (r: Result<(), Error>)
        ensures
            (r is Ok) == (difficulty.val() >= self.min_difficulty),
            (r matches Err(e) ==> e == Error::InvalidDifficulty),
    {
        let floor = U256::from_u64(self.min_difficulty);
        if floor.le(difficulty) {
            Ok(())
        } else {
            Err(Error::InvalidDifficulty)
        }
    }
}

impl Default for ConsensusParameters {
    /// The standard policy of the main chain.
    fn default() -> (r: ConsensusParameters)
        ensures
            r == (ConsensusParameters {
                time_step: 250,
                max_time_deviat: 30000,
                epoch_len: 10,
                height_shift: 50,
                increment_divisor: 10000,
                threshold: 1,
                difficulty_bound_divisor: 8,
                limit: 99,
                min_difficulty: 64,
            }),
            r.wf(),
    {
        ConsensusParameters {
            time_step: 250,
            max_time_deviat: 30000,
            epoch_len: 10,
            height_shift: 50,
            increment_divisor: 10000,
            threshold: 1,
            difficulty_bound_divisor: 8,
            limit: 99,
            min_difficulty: 64,
        }
    }
}

} // verus!
