//! How far a boid moves in one frame.
use vstd::prelude::*;

verus! {

/// The number of microseconds that make one unit of movement: a boid moves
/// `velocity * (elapsed / MICROS_PER_STEP)` per frame.
pub const MICROS_PER_STEP: u128 = 10000;

/// The time, in microseconds, that a frame moves the boids by: the time that
/// elapsed since the last frame, or one whole step when none did.
pub fn frame_delta_micros(elapsed_micros: u128) -> (delta: u128)
    ensures
        delta == if elapsed_micros == 0 { MICROS_PER_STEP } else { elapsed_micros },
        delta > 0,
{
    if elapsed_micros == 0 {
        MICROS_PER_STEP
    } else {
        elapsed_micros
    }
}

} // verus!
