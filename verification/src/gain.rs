//! The discrete gain lattice of the optical sensor.
//!
//! The sensor amplifies its analog signal by one of four gain levels. The
//! levels form a totally ordered lattice with a successor and a predecessor
//! relation; stepping past either end is an error, never a wraparound.

use vstd::prelude::*;

verus! {

/// One amplification level of the optical sensor, ordered from weakest to
/// strongest.
#[derive(Clone, Copy, Debug, PartialEq, Eq, Structural)]
pub enum GainLevel {
    Low,
    Med,
    High,
    Max,
}

/// Why a gain step was refused: the lattice has no level beyond the end
/// that was asked for.
#[derive(Clone, Copy, Debug, PartialEq, Eq, Structural)]
pub enum GainError {
    AlreadyAtMax,
    AlreadyAtLow,
}

/// The next stronger gain level, or `None` at the top of the lattice.
pub open spec fn gain_successor(gain: GainLevel) -> Option<GainLevel> {
    match gain {
        GainLevel::Low => Some(GainLevel::Med),
        GainLevel::Med => Some(GainLevel::High),
        GainLevel::High => Some(GainLevel::Max),
        GainLevel::Max => None,
    }
}

/// The next weaker gain level, or `None` at the bottom of the lattice.
pub open spec fn gain_predecessor(gain: GainLevel) -> Option<GainLevel> {
    match gain {
        GainLevel::Low => None,
        GainLevel::Med => Some(GainLevel::Low),
        GainLevel::High => Some(GainLevel::Med),
        GainLevel::Max => Some(GainLevel::High),
    }
}

/// Steps one level up the lattice; at `Max` it fails instead of wrapping.
pub fn increment_gain(gain: GainLevel) -> (r: Result<GainLevel, GainError>)
    ensures
        r matches Ok(next) ==> gain_successor(gain) == Some(next),
        r is Err <==> gain is Max,
        r is Err ==> r == Err::<GainLevel, GainError>(GainError::AlreadyAtMax),
{
    match gain {
        GainLevel::Low => Ok(GainLevel::Med),
        GainLevel::Med => Ok(GainLevel::High),
        GainLevel::High => Ok(GainLevel::Max),
        GainLevel::Max => Err(GainError::AlreadyAtMax),
    }
}

/// Steps one level down the lattice; at `Low` it fails instead of wrapping.
pub fn decrement_gain(gain: GainLevel) -> (r: Result<GainLevel, GainError>)
    ensures
        r matches Ok(prev) ==> gain_predecessor(gain) == Some(prev),
        r is Err <==> gain is Low,
        r is Err ==> r == Err::<GainLevel, GainError>(GainError::AlreadyAtLow),
{
    match gain {
        GainLevel::Low => Err(GainError::AlreadyAtLow),
        GainLevel::Med => Ok(GainLevel::Low),
        GainLevel::High => Ok(GainLevel::Med),
        GainLevel::Max => Ok(GainLevel::High),
    }
}

/// The lattice is bounded: the strongest level has no successor and the
/// weakest has no predecessor, so repeated stepping in one direction stops.
pub proof fn lemma_gain_lattice_boundaries()
    ensures
        gain_successor(GainLevel::Max) is None,
        gain_predecessor(GainLevel::Low) is None,
{
}

} // verus!
