//! From a wanted heading to a push on the actor.

use crate::actions::{MoveMotion, Movement};
use crate::direction::Direction;
use crate::timer::{Timer, TimerMode};
use vstd::prelude::*;

verus! {

/// Scale from a sliding actor's heading to the force on it.
pub const SLIDE_GAIN: u32 = 800;

/// Scale from a bouncing actor's heading to the impulse of a hop.
pub const BOUNCE_GAIN: u32 = 500;

/// How a push acts on the actor.
#[derive(Clone, Copy, Debug, PartialEq, Eq, Structural)]
pub enum PushKind {
    /// For this tick only, as a force.
    Force,
    /// At once, as an impulse.
    Impulse,
}

/// A push to ask of the physics: along `direction`, whose length is first
/// cut to `limit` world units and then scaled by `gain`.
#[derive(Clone, Copy, Debug, PartialEq, Eq, Structural)]
pub struct Push {
    pub kind: PushKind,
    pub direction: Direction,
    pub limit: u32,
    pub gain: u32,
}

/// The profile after `delta` nanoseconds with the intent `movement`: the
/// timer of a bounce runs only while there is a heading.
pub open spec fn moved(movement: Movement, motion: MoveMotion, delta: u64) -> MoveMotion {
    match (movement.move_direction, motion) {
        (Some(_), MoveMotion::Bouncing { speed, timer }) => MoveMotion::Bouncing {
            speed,
            timer: timer.after_tick(delta),
        },
        _ => motion,
    }
}

/// The push that the intent `movement` asks for when `delta` nanoseconds
/// pass: a force on every tick for a slide, an impulse on every tick on
/// which the timer reaches its duration for a bounce, nothing without a
/// heading.
pub open spec fn pushed(movement: Movement, motion: MoveMotion, delta: u64) -> Option<Push> {
    match (movement.move_direction, motion) {
        (Some(direction), MoveMotion::Sliding { speed }) => Some(
            Push { kind: PushKind::Force, direction, limit: speed, gain: SLIDE_GAIN },
        ),
        (Some(direction), MoveMotion::Bouncing { speed, timer }) => {
            if timer.after_tick(delta).completed_now() {
                Some(Push { kind: PushKind::Impulse, direction, limit: speed, gain: BOUNCE_GAIN })
            } else {
                None
            }
        },
        (None, _) => None,
    }
}

/// Turns the intent of one actor into the push to ask for in this tick of
/// `delta` nanoseconds.
pub fn character_movement(movement: &Movement, move_motion: &mut MoveMotion, delta: u64) -> (push:
    Option<Push>)
    ensures
        *final(move_motion) == moved(*movement, *old(move_motion), delta),
        push == pushed(*movement, *old(move_motion), delta),
{
    match movement.move_direction {
        Some(direction) => {
            match *move_motion {
                MoveMotion::Sliding { speed } => Some(
                    Push { kind: PushKind::Force, direction, limit: speed, gain: SLIDE_GAIN },
                ),
                MoveMotion::Bouncing { speed, timer } => {
                    let mut timer = timer;
                    timer.tick(delta);
                    *move_motion = MoveMotion::Bouncing { speed, timer };
                    if timer.completed() {
                        Some(
                            Push {
                                kind: PushKind::Impulse,
                                direction,
                                limit: speed,
                                gain: BOUNCE_GAIN,
                            },
                        )
                    } else {
                        None
                    }
                },
            }
        },
        None => None,
    }
}

/// A bouncing actor with a heading hops on exactly the ticks on which its
/// repeating timer reaches its duration: those on which the time behind it
/// and the time that passed come to the duration or more.
pub proof fn lemma_hop_on_completion(direction: Direction, speed: u32, timer: Timer, delta: u64)
    requires
        timer.mode == TimerMode::Repeating,
    ensures
        ({
            let movement = Movement { move_direction: Some(direction) };
            let motion = MoveMotion::Bouncing { speed, timer };
            &&& pushed(movement, motion, delta) is Some <==> timer.elapsed + delta
                >= timer.duration
            &&& pushed(movement, motion, delta) matches Some(push) ==> push == (Push {
                kind: PushKind::Impulse,
                direction,
                limit: speed,
                gain: BOUNCE_GAIN,
            })
        }),
{
}

} // verus!
