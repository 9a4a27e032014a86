//! The player-controlled actor.

use crate::actions::{ActionState, Actions, Charge, Health};
use crate::direction::Direction;
use vstd::prelude::*;

verus! {

/// The weapon the player currently wields.
#[derive(Clone, Copy, Debug, PartialEq, Eq, Structural)]
pub enum PlayerForm {
    /// Melee: a chain of circular slashes.
    Sword,
    /// Ranged; it has no attack yet.
    Bow,
}

impl Default for PlayerForm {
    fn default() -> (form: PlayerForm)
        ensures
            form == PlayerForm::Sword,
    {
        PlayerForm::Sword
    }
}

/// Marks the one actor that input steers, and keeps its score.
#[derive(Clone, Copy, Debug, PartialEq, Eq, Structural)]
pub struct Player {
    /// The weapon in hand.
    pub form: PlayerForm,
    /// Enemies brought down so far.
    pub score: u32,
}

impl Default for Player {
    fn default() -> (player: Player)
        ensures
            player == (Player { form: PlayerForm::Sword, score: 0 }),
    {
        Player { form: PlayerForm::Sword, score: 0 }
    }
}

/// The side of the player.
pub const PLAYER_OWNER: u32 = 0;

/// Hits that the player can take.
pub const PLAYER_HEALTH: u32 = 5;

impl Player {
    /// Gives the health that the player starts with.
    pub fn spawn_health() -> (health: Health)
        ensures
            health == (Health {
                owner: PLAYER_OWNER,
                health: PLAYER_HEALTH,
                max_health: PLAYER_HEALTH,
            }),
            health.wf(),
    {
        Health { owner: PLAYER_OWNER, health: PLAYER_HEALTH, max_health: PLAYER_HEALTH }
    }
}

/// Marks the arrow that shows where a charge is aimed.
#[derive(Clone, Copy, Debug, PartialEq, Eq, Structural)]
pub struct DirectionArrow;

/// Where a charge is aimed and how far it has built up.
#[derive(Clone, Copy, Debug, PartialEq, Eq, Structural)]
pub struct Aim {
    /// The heading of the charge.
    pub direction: Direction,
    /// The charge; the arrow grows with the part of it that has built up.
    pub charge: Charge,
}

/// The aim to show for `state`: that of a charge with a heading; nothing
/// else has an arrow.
pub open spec fn aim_of(state: ActionState) -> Option<Aim> {
    match state {
        ActionState::Charging { charge, trigger_direction: Some(direction) } => Some(
            Aim { direction, charge },
        ),
        _ => None,
    }
}

/// Tells what the direction arrow shows for the player's action, or that
/// there is to be none.
pub fn update_direction_arrow(actions: &Actions) -> (aim: Option<Aim>)
    ensures
        aim == aim_of(actions@),
{
    match actions {
        Actions::Charging { charge, trigger_direction: Some(direction) } => Some(
            Aim { direction: *direction, charge: *charge },
        ),
        _ => None,
    }
}

} // verus!
