//! Who can touch whom.

use vstd::prelude::*;

verus! {

/// The group that a collider belongs to.
#[derive(Clone, Copy, Debug, PartialEq, Eq, Structural)]
pub enum CollisionLayer {
    /// Hit-zones and the rest of the world.
    Default,
    /// The player's actor.
    Player,
    /// The enemies' actors.
    Enemy,
    /// What the enemies shoot.
    EnemyProjectile,
}

impl Default for CollisionLayer {
    fn default() -> (layer: CollisionLayer)
        ensures
            layer == CollisionLayer::Default,
    {
        CollisionLayer::Default
    }
}

impl CollisionLayer {
    /// Whether a collider of this group takes notice of one of `other`.
    ///
    /// The player notices the world, the enemies and their projectiles; an
    /// enemy notices the world and the player; a projectile notices
    /// nothing, and the world notices everything.
    pub open spec fn notices(self, other: CollisionLayer) -> bool {
        match self {
            CollisionLayer::Default => true,
            CollisionLayer::Player => other != CollisionLayer::Player,
            CollisionLayer::Enemy => other == CollisionLayer::Default || other
                == CollisionLayer::Player,
            CollisionLayer::EnemyProjectile => false,
        }
    }

    /// Tells whether a collider of this group takes notice of one of `other`.
    pub fn filters(&self, other: CollisionLayer) -> (notices: bool)
        ensures
            notices == self.notices(other),
    {
        match self {
            CollisionLayer::Default => true,
            CollisionLayer::Player => match other {
                CollisionLayer::Player => false,
                _ => true,
            },
            CollisionLayer::Enemy => match other {
                CollisionLayer::Default => true,
                CollisionLayer::Player => true,
                _ => false,
            },
            CollisionLayer::EnemyProjectile => false,
        }
    }
}

} // verus!
