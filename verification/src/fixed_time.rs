//! A fixed-timestep clock driver: each tick of the engine's clock is told to
//! be exactly one sixtieth of a second after the last, irrespective of the
//! wall time that actually passed (which should be roughly the same). This
//! keeps the physics the host delegates to deterministic.

use vstd::prelude::*;

verus! {

/// One tick, a sixtieth of a second, in nanoseconds (the quotient rounded to
/// the nearest nanosecond, as the engine's duration arithmetic rounds it).
pub const TICK_NANOS: u64 = 16_666_667;

/// The plugin marker: the host wiring registers `fixed_time_step`'s decision
/// each frame.
pub struct FixedTimePlugin;

/// The instant the clock must report next, in nanoseconds from the host's
/// epoch: exactly one tick after the last update.
pub fn fixed_time_step(last_update_nanos: u64) -> (next: u64)
    requires
        last_update_nanos + TICK_NANOS <= u64::MAX,
    ensures
        next == last_update_nanos + TICK_NANOS,
{
    last_update_nanos + TICK_NANOS
}

} // verus!
