//! What the displays show of an actor.

use crate::actions::{ActionState, Actions, Health};
use crate::timer::NANOS_PER_SEC;
use vstd::prelude::*;

verus! {

/// One life on the health display.
#[derive(Clone, Copy, Debug, PartialEq, Eq, Structural)]
pub enum Pip {
    /// A life that is left.
    Beating,
    /// A life that is lost.
    Depleted,
}

/// The seconds to show on the cooldown display, or nothing where the
/// display is hidden: the time left of a cooldown, rounded up to whole
/// seconds and held at the largest number the display can take.
pub open spec fn cooldown_seconds(state: ActionState) -> Option<u32> {
    match state {
        ActionState::Cooldown(timer) => {
            let left = timer.duration - timer.elapsed;
            let seconds = (left + NANOS_PER_SEC - 1) / (NANOS_PER_SEC as int);
            Some(
                if seconds > u32::MAX {
                    u32::MAX
                } else {
                    seconds as u32
                },
            )
        },
        _ => None,
    }
}

/// Tells what the cooldown display of an actor shows: the whole seconds
/// left while it recovers, nothing otherwise.
pub fn update_cooldown_displays(actions: &Actions) -> (shown: Option<u32>)
    requires
        actions@ matches ActionState::Cooldown(timer) ==> timer.wf(),
    ensures
        shown == cooldown_seconds(actions@),
{
    match actions {
        Actions::Cooldown(timer) => {
            let left: u64 = timer.remaining();
            let whole: u64 = left / NANOS_PER_SEC;
            let seconds: u64 = if left % NANOS_PER_SEC == 0 {
                whole
            } else {
                whole + 1
            };
            if seconds > u32::MAX as u64 {
                Some(u32::MAX)
            } else {
                Some(seconds as u32)
            }
        },
        _ => None,
    }
}

/// The lives on the health display: as many as the maximum, of which the
/// first are those that are left.
pub open spec fn pips(health: Health) -> Seq<Pip> {
    Seq::new(
        health.max_health as nat,
        |i: int|
            if i < health.health {
                Pip::Beating
            } else {
                Pip::Depleted
            },
    )
}

/// Lays out the health display for `health`.
pub fn update_health_display(health: &Health) -> (shown: Vec<Pip>)
    ensures
        shown@ == pips(*health),
{
    let mut shown: Vec<Pip> = Vec::new();
    let mut i: u32 = 0;
    while i < health.max_health
        invariant
            i <= health.max_health,
            shown@ == Seq::new(
                i as nat,
                |k: int|
                    if k < health.health {
                        Pip::Beating
                    } else {
                        Pip::Depleted
                    },
            ),
        decreases health.max_health - i,
    {
        if i < health.health {
            shown.push(Pip::Beating);
        } else {
            shown.push(Pip::Depleted);
        }
        i = i + 1;
    }
    shown
}

} // verus!
