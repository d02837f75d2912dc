use vstd::prelude::*;

verus! {

/// The typed failures this library reports, or exposes for external
/// validators that check headers against the consensus bounds.
#[derive(Clone, Copy, Debug, PartialEq, Eq, Structural)]
pub enum Error {
    /// Bytes handed to the header decoder do not match the canonical layout.
    DeserializationError,
    /// The challenge height is not yet present in the chain index; the caller
    /// should defer the adjustment and retry later.
    ChallengeLookupFailure,
    /// A declared difficulty lies below the consensus floor.
    InvalidDifficulty,
    /// A declared timestamp deviates further from the expected clock value
    /// than the consensus parameters allow.
    TimeDeviationError,
}

} // verus!
