//! The simulation's one source of randomness: the global random number
//! generator resource of `bevy_turborand`, reached through a single trusted
//! wrapper. Everything derived from it (thresholds, delays, steering bias)
//! is computed from the drawn integer in verified code.

use vstd::prelude::*;

use bevy_turborand::{DelegatedRng, TurboRand};

verus! {

/// `bevy_turborand::GlobalRng` wraps a wyrand generator; a value of it is
/// opaque here and only the wrapper below touches it.
#[verifier::external_type_specification]
#[verifier::external_body]
pub struct ExGlobalRng(bevy_turborand::GlobalRng);

/// Relies on `turborand`'s `TurboRand::u32` on the generator inside
/// `bevy_turborand::GlobalRng`: a draw over the range `0..bound` returns a
/// value in that range and panics only on an empty range, which the
/// precondition rules out. Nothing else is assumed of the draw.
#[verifier::external_body]
pub fn rng_below(rng: &mut bevy_turborand::GlobalRng, bound: u32) -> (r: u32)
    requires
        bound >= 1,
    ensures
        r < bound,
{
    rng.get_mut().u32(0..bound)
}

} // verus!
