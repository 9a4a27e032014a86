//! Combat and behaviour core of a small real-time top-down action game.
//!
//! Every actor carries an [`actions::Actions`] state. Input
//! ([`game_control`]) or an enemy's decision ([`enemies`]) pushes it
//! forward; advancing it ([`actions::character_actions`]) fires timed steps,
//! each of which places a hit-zone; contacts between hit-zones and
//! health-bearing actors are resolved into damage, knockback and death
//! ([`combat`]); a wanted heading becomes a push ([`motion`]).
//!
//! The core owns no world. A host reads its world into the plain values
//! taken here, calls in once per tick, and carries out what comes back:
//! places zones, plays sounds, applies impulses, removes the dead. Time is
//! counted in whole nanoseconds and the plane in thousandths of a world
//! unit, so every rule is stated and proved over integers. Timers are ticked
//! by the engine's own timer ([`timer`]).

pub mod actions;
pub mod animation;
pub mod combat;
pub mod direction;
pub mod enemies;
pub mod game_control;
pub mod motion;
pub mod physics;
pub mod player;
pub mod timer;
pub mod ui;
