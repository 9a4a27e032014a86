//! Frames of a sprite sheet, played in a loop.

use crate::timer::Timer;
use vstd::prelude::*;

verus! {

/// The first and the last frame of an animation on its sheet.
#[derive(Clone, Copy, Debug, PartialEq, Eq, Structural)]
pub struct AnimationIndices {
    pub first: usize,
    pub last: usize,
}

/// Comes round once for every frame.
#[derive(Clone, Copy, Debug, PartialEq, Eq, Structural)]
pub struct AnimationTimer(pub Timer);

impl AnimationIndices {
    /// The frame after `index`: the first after the last, else the next.
    pub open spec fn following(self, index: usize) -> int {
        if index == self.last {
            self.first as int
        } else {
            index + 1
        }
    }
}

/// The frame to show once `delta` nanoseconds have gone by on `timer`:
/// the one after `index` if the timer came round, else `index` still.
pub open spec fn animated(indices: AnimationIndices, timer: AnimationTimer, index: usize, delta: u64) -> int {
    if timer.0.after_tick(delta).times_finished_this_tick > 0 {
        indices.following(index)
    } else {
        index as int
    }
}

/// Runs the frame timer by `delta` nanoseconds and gives the frame to show.
/// A frame past the last one may not be the largest number there is.
pub fn animate_sprite(indices: &AnimationIndices, timer: &mut AnimationTimer, index: usize, delta: u64) -> (shown:
    usize)
    requires
        index < usize::MAX || index == indices.last,
    ensures
        *final(timer) == AnimationTimer(old(timer).0.after_tick(delta)),
        shown == animated(*indices, *old(timer), index, delta),
{
    let mut ticking = timer.0;
    ticking.tick(delta);
    *timer = AnimationTimer(ticking);
    if ticking.just_finished() {
        if index == indices.last {
            indices.first
        } else {
            index + 1
        }
    } else {
        index
    }
}

} // verus!
