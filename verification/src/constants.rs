//! Fixed parameters of the appliance.

use vstd::prelude::*;

verus! {

/// Capacity of the animation pool: at most this many animations play
/// at once; further requests are dropped silently.
pub const MAX_ANIMATIONS: usize = 6;

/// Redraw rate, in frames per second, while animations are playing.
pub const FRAME_RATE: u64 = 30;

} // verus!
