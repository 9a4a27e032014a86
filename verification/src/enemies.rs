//! Actors that decide for themselves.

use crate::actions::{
    ActionState, Actions, Effect, Health, MoveMotion, Movement, SoundCue, Spawn, Step,
};
use crate::direction::{Direction, UNIT};
use crate::timer::{Timer, TimerMode, NANOS_PER_MILLI, NANOS_PER_SEC};
use std::collections::VecDeque;
use vstd::prelude::*;

verus! {

/// Grid steps within which a melee enemy attacks.
pub const MELEE_RANGE: u32 = 15 * UNIT;

/// Grid steps within which a ranged enemy attacks.
pub const RANGED_RANGE: u32 = 64 * UNIT;

/// Grid steps below which no approach is ever asked for.
pub const APPROACH_FLOOR: u32 = 10 * UNIT;

/// How an enemy fights.
#[derive(Clone, Copy, Debug, PartialEq, Eq, Structural)]
pub enum EnemyForm {
    /// Closes in and strikes around itself.
    Melee,
    /// Keeps its distance and shoots.
    Ranged,
}

impl Default for EnemyForm {
    fn default() -> (form: EnemyForm)
        ensures
            form == EnemyForm::Melee,
    {
        EnemyForm::Melee
    }
}

/// Marks an actor as deciding for itself.
#[derive(Clone, Copy, Debug, PartialEq, Eq, Structural)]
pub struct Ai {
    /// How it fights.
    pub form: EnemyForm,
}

impl Default for Ai {
    fn default() -> (ai: Ai)
        ensures
            ai == (Ai { form: EnemyForm::Melee }),
    {
        Ai { form: EnemyForm::Melee }
    }
}

impl EnemyForm {
    /// Grid steps within which the enemy attacks.
    pub open spec fn range(self) -> u32 {
        match self {
            EnemyForm::Melee => MELEE_RANGE,
            EnemyForm::Ranged => RANGED_RANGE,
        }
    }

    /// Milliseconds before the attack lands.
    pub open spec fn windup_millis(self) -> u32 {
        match self {
            EnemyForm::Melee => 1200,
            EnemyForm::Ranged => 1300,
        }
    }

    /// Milliseconds of recovery after the attack.
    pub open spec fn cooldown_millis(self) -> u32 {
        match self {
            EnemyForm::Melee => 500,
            EnemyForm::Ranged => 800,
        }
    }

    /// The single step of the attack.
    pub open spec fn attack_step(self) -> Step {
        Step {
            timer: Timer::fresh((self.windup_millis() * NANOS_PER_MILLI) as u64, TimerMode::Once),
            effect: match self {
                EnemyForm::Melee => Effect::Splash,
                EnemyForm::Ranged => Effect::Spawn(Spawn::Arrow),
            },
            sfx: Some(
                match self {
                    EnemyForm::Melee => SoundCue::MeleeAttack,
                    EnemyForm::Ranged => SoundCue::RangedAttack,
                },
            ),
            forward: 0,
        }
    }

    /// The attack towards `trigger_direction`: one step, whatever the form.
    pub open spec fn attack(self, trigger_direction: Direction) -> ActionState {
        ActionState::Executing {
            trigger_direction,
            pending_cooldown: Timer::fresh(
                (self.cooldown_millis() * NANOS_PER_MILLI) as u64,
                TimerMode::Once,
            ),
            steps: seq![self.attack_step()],
        }
    }

    /// Gives the grid steps within which the enemy attacks.
    pub fn engagement_range(&self) -> (range: u32)
        ensures
            range == self.range(),
            range >= APPROACH_FLOOR,
    {
        match self {
            EnemyForm::Melee => MELEE_RANGE,
            EnemyForm::Ranged => RANGED_RANGE,
        }
    }

    /// Builds the attack towards `trigger_direction`.
    pub fn begin_attack(&self, trigger_direction: Direction) -> (actions: Actions)
        ensures
            actions@ == self.attack(trigger_direction),
            actions@.wf(),
    {
        let mut steps: VecDeque<Step> = VecDeque::new();
        match self {
            EnemyForm::Melee => {
                steps.push_back(
                    Step::from_timer(Timer::from_millis(1200, TimerMode::Once)).with_effect(
                        Effect::Splash,
                    ).with_sfx(SoundCue::MeleeAttack),
                );
                Actions::Executing {
                    trigger_direction,
                    pending_cooldown: Timer::from_millis(500, TimerMode::Once),
                    steps,
                }
            },
            EnemyForm::Ranged => {
                steps.push_back(
                    Step::from_timer(Timer::from_millis(1300, TimerMode::Once)).with_effect(
                        Effect::Spawn(Spawn::Arrow),
                    ).with_sfx(SoundCue::RangedAttack),
                );
                Actions::Executing {
                    trigger_direction,
                    pending_cooldown: Timer::from_millis(800, TimerMode::Once),
                    steps,
                }
            },
        }
    }
}

/// Where an enemy of `form` wants to go when the player is at the offset
/// `to_player`, or is not there at all.
pub open spec fn thought_movement(
    movement: Movement,
    form: EnemyForm,
    to_player: Option<Direction>,
) -> Movement {
    match to_player {
        Some(offset) => if offset.longer_than(form.range()) {
            Movement { move_direction: Some(offset) }
        } else {
            Movement { move_direction: None }
        },
        None => movement,
    }
}

/// What an enemy of `form` does when the player is at the offset
/// `to_player`, or is not there at all: within range and idle, it attacks.
pub open spec fn thought_action(
    state: ActionState,
    form: EnemyForm,
    to_player: Option<Direction>,
) -> ActionState {
    match to_player {
        Some(offset) => if !offset.longer_than(form.range()) && state is Idle {
            form.attack(offset)
        } else {
            state
        },
        None => state,
    }
}

/// Decides for one enemy: out of range it walks towards the player, within
/// range it stands and, if idle, attacks along the offset it sees now.
/// Without a player nothing changes.
///
/// An approach is only ever asked for beyond [`APPROACH_FLOOR`], so a host
/// that keeps headings at least that long never has to lengthen one.
pub fn ai_think(
    movement: &mut Movement,
    actions: &mut Actions,
    ai: &Ai,
    to_player: Option<Direction>,
)
    ensures
        *final(movement) == thought_movement(*old(movement), ai.form, to_player),
        final(actions)@ == thought_action(old(actions)@, ai.form, to_player),
        old(actions)@.wf() ==> final(actions)@.wf(),
        final(actions)@ == old(actions)@ || (old(actions)@ is Idle && final(actions)@ is Executing),
        to_player matches Some(offset) ==> (offset.longer_than(ai.form.range())
            ==> offset.longer_than(APPROACH_FLOOR)),
{
    match to_player {
        Some(offset) => {
            let range = ai.form.engagement_range();
            if offset.exceeds(range) {
                proof {
                    offset.lemma_longer_than_smaller(range, APPROACH_FLOOR);
                }
                movement.move_direction = Some(offset);
            } else {
                movement.move_direction = None;
                let idle = match actions {
                    Actions::Idle => true,
                    _ => false,
                };
                if idle {
                    *actions = ai.form.begin_attack(offset);
                }
            }
        },
        None => {},
    }
}

/// An enemy's decision touches its action only to begin an attack from
/// idleness, and the attack it begins has exactly one step.
pub proof fn lemma_thought_is_closed(state: ActionState, form: EnemyForm, to_player: Option<Direction>)
    ensures
        ({
            let after = thought_action(state, form, to_player);
            &&& after == state || (state is Idle && after is Executing)
            &&& after != state ==> after->steps.len() == 1
        }),
{
}

/// The side of the enemies.
pub const ENEMY_OWNER: u32 = 1;

/// Hits that an enemy can take.
pub const ENEMY_HEALTH: u32 = 1;

/// World units per tick that an enemy's heading is cut to.
pub const ENEMY_SPEED: u32 = 10;

/// Milliseconds between two hops of a melee enemy.
pub const HOP_MILLIS: u32 = 600;

impl EnemyForm {
    /// How an enemy of this form moves: the melee enemy hops, the ranged
    /// enemy slides.
    pub open spec fn motion(self) -> MoveMotion {
        match self {
            EnemyForm::Melee => MoveMotion::Bouncing {
                speed: ENEMY_SPEED,
                timer: Timer::fresh((HOP_MILLIS * NANOS_PER_MILLI) as u64, TimerMode::Repeating),
            },
            EnemyForm::Ranged => MoveMotion::Sliding { speed: ENEMY_SPEED },
        }
    }

    /// Gives the health that an enemy starts with.
    pub fn spawn_health(&self) -> (health: Health)
        ensures
            health == (Health {
                owner: ENEMY_OWNER,
                health: ENEMY_HEALTH,
                max_health: ENEMY_HEALTH,
            }),
            health.wf(),
    {
        Health { owner: ENEMY_OWNER, health: ENEMY_HEALTH, max_health: ENEMY_HEALTH }
    }

    /// Gives the way an enemy of this form moves.
    pub fn spawn_motion(&self) -> (motion: MoveMotion)
        ensures
            motion == self.motion(),
    {
        match self {
            EnemyForm::Melee => MoveMotion::Bouncing {
                speed: ENEMY_SPEED,
                timer: Timer::from_millis(HOP_MILLIS, TimerMode::Repeating),
            },
            EnemyForm::Ranged => MoveMotion::Sliding { speed: ENEMY_SPEED },
        }
    }
}

/// What an enemy is seen doing.
#[derive(Clone, Copy, Debug, PartialEq, Eq, Structural)]
pub enum Gait {
    Walk,
    Attack,
}

/// Which way an enemy is seen facing.
#[derive(Clone, Copy, Debug, PartialEq, Eq, Structural)]
pub enum Facing {
    Left,
    Right,
}

/// The picture of an enemy.
#[derive(Clone, Copy, Debug, PartialEq, Eq, Structural)]
pub struct Pose {
    pub gait: Gait,
    pub facing: Facing,
}

/// Which way the heading `direction` faces: left unless it points right.
pub open spec fn facing_of(direction: Direction) -> Facing {
    if direction.x <= 0 {
        Facing::Left
    } else {
        Facing::Right
    }
}

/// The picture of an enemy in `state` with the intent `movement`, or
/// nothing where the picture stays as it is: idle, it walks the way it
/// wants to go, and to the right if it wants to go nowhere; in an action, it
/// attacks the way the action is aimed.
pub open spec fn pose_of(state: ActionState, movement: Movement) -> Option<Pose> {
    match state {
        ActionState::Idle => Some(
            Pose {
                gait: Gait::Walk,
                facing: match movement.move_direction {
                    Some(direction) => facing_of(direction),
                    None => Facing::Right,
                },
            },
        ),
        ActionState::Executing { trigger_direction, .. } => Some(
            Pose { gait: Gait::Attack, facing: facing_of(trigger_direction) },
        ),
        _ => None,
    }
}

/// Picks the picture of an enemy from what it does and where it wants to
/// go, or tells that the picture stays as it is.
pub fn update_sprite(actions: &Actions, movement: &Movement) -> (pose: Option<Pose>)
    ensures
        pose == pose_of(actions@, *movement),
{
    match actions {
        Actions::Idle => {
            let facing = match movement.move_direction {
                Some(direction) => if direction.x <= 0 {
                    Facing::Left
                } else {
                    Facing::Right
                },
                None => Facing::Right,
            };
            Some(Pose { gait: Gait::Walk, facing })
        },
        Actions::Executing { trigger_direction, .. } => {
            let facing = if trigger_direction.x <= 0 {
                Facing::Left
            } else {
                Facing::Right
            };
            Some(Pose { gait: Gait::Attack, facing })
        },
        _ => None,
    }
}

/// Nanoseconds that the wait for the first ranged enemy must exceed.
pub const RANGED_PATIENCE: u64 = 3 * NANOS_PER_SEC;

/// Nanoseconds by which the patience grows with every melee enemy.
pub const MELEE_GROWTH: u64 = NANOS_PER_SEC / 10;

/// Nanoseconds by which the patience grows with every ranged enemy.
pub const RANGED_GROWTH: u64 = NANOS_PER_SEC / 5;

/// Decides when the next enemy of one form appears.
///
/// Each tick adds a share of the time that passed, drawn by chance, to the
/// time waited. Once that is more than the patience, an enemy appears, the
/// wait begins anew and the patience grows.
#[derive(Clone, Copy, Debug, PartialEq, Eq, Structural)]
pub struct SpawnClock {
    /// Nanoseconds waited since the last enemy.
    pub waited: u64,
    /// Nanoseconds that the wait must exceed.
    pub patience: u64,
}

impl Default for SpawnClock {
    fn default() -> (clock: SpawnClock)
        ensures
            clock == (SpawnClock { waited: 0, patience: 0 }),
    {
        SpawnClock { waited: 0, patience: 0 }
    }
}

/// `sum`, held at the largest number there is.
pub open spec fn capped(sum: int) -> u64 {
    if sum > u64::MAX {
        u64::MAX
    } else {
        sum as u64
    }
}

impl SpawnClock {
    /// The share of `delta` that the draw `roll` out of 2^32 stands for.
    pub open spec fn share(roll: u32, delta: u64) -> u64 {
        ((roll * delta) / 0x1_0000_0000) as u64
    }

    /// Whether an enemy appears when the draw is `roll` and `delta`
    /// nanoseconds have passed.
    pub open spec fn rings(self, roll: u32, delta: u64) -> bool {
        capped(self.waited + SpawnClock::share(roll, delta)) > self.patience
    }

    /// The clock after the draw `roll` and `delta` nanoseconds, where the
    /// patience grows by `growth` with every enemy.
    pub open spec fn wound(self, growth: u64, roll: u32, delta: u64) -> SpawnClock {
        if self.rings(roll, delta) {
            SpawnClock { waited: 0, patience: capped(self.patience + growth) }
        } else {
            SpawnClock { waited: capped(self.waited + SpawnClock::share(roll, delta)), ..self }
        }
    }

    /// The clock with the patience that the ranged enemies begin with, where
    /// it has none yet.
    pub open spec fn roused(self) -> SpawnClock {
        if self.patience == 0 {
            SpawnClock { patience: RANGED_PATIENCE, ..self }
        } else {
            self
        }
    }

    /// Winds the clock by the draw `roll` and `delta` nanoseconds, and tells
    /// whether it rings.
    fn wind(&mut self, growth: u64, roll: u32, delta: u64) -> (rings: bool)
        ensures
            *final(self) == old(self).wound(growth, roll, delta),
            rings == old(self).rings(roll, delta),
    {
        assert(roll * delta <= 0xffff_ffff * 0xffff_ffff_ffff_ffff) by (nonlinear_arith)
            requires
                0 <= roll <= 0xffff_ffff,
                0 <= delta <= 0xffff_ffff_ffff_ffff,
        ;
        let product: u128 = roll as u128 * delta as u128;
        let share: u64 = (product / 0x1_0000_0000) as u64;
        let waited = self.waited.saturating_add(share);
        if waited > self.patience {
            self.waited = 0;
            self.patience = self.patience.saturating_add(growth);
            true
        } else {
            self.waited = waited;
            false
        }
    }
}

/// Winds the clock of the melee enemies by the draw `roll` out of 2^32 and
/// `delta` nanoseconds, and tells whether one appears now.
pub fn enemy_melee_spawner(clock: &mut SpawnClock, roll: u32, delta: u64) -> (spawn: bool)
    ensures
        *final(clock) == old(clock).wound(MELEE_GROWTH, roll, delta),
        spawn == old(clock).rings(roll, delta),
{
    clock.wind(MELEE_GROWTH, roll, delta)
}

/// Winds the clock of the ranged enemies by the draw `roll` out of 2^32 and
/// `delta` nanoseconds, and tells whether one appears now. A clock without
/// patience is first given that of the ranged enemies.
pub fn enemy_ranged_spawner(clock: &mut SpawnClock, roll: u32, delta: u64) -> (spawn: bool)
    ensures
        *final(clock) == old(clock).roused().wound(RANGED_GROWTH, roll, delta),
        spawn == old(clock).roused().rings(roll, delta),
{
    if clock.patience == 0 {
        clock.patience = RANGED_PATIENCE;
    }
    clock.wind(RANGED_GROWTH, roll, delta)
}

} // verus!
