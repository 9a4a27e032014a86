//! The action state of an actor and the steps an action plays out.

use crate::direction::Direction;
use crate::player::PlayerForm;
use crate::timer::{Timer, TimerMode, NANOS_PER_MILLI, NANOS_PER_SEC};
use std::collections::VecDeque;
use vstd::prelude::*;

verus! {

/// Milliseconds for which a charge can build up.
pub const CHARGE_MILLIS: u32 = 2000;

/// Milliseconds between the slashes that a charge adds.
pub const SLASH_MILLIS: u32 = 200;

/// Milliseconds of recovery after a sword action.
pub const SWORD_COOLDOWN_MILLIS: u32 = 1000;

/// Forward impulse of one slash.
pub const SLASH_FORWARD: u32 = 20;

/// A sound to play, by what it stands for.
#[derive(Clone, Copy, Debug, PartialEq, Eq, Structural)]
pub enum SoundCue {
    /// A blade cutting air.
    Woosh,
    /// A melee enemy striking.
    MeleeAttack,
    /// A ranged enemy loosing a shot.
    RangedAttack,
    /// The player going down.
    PlayerDamaged,
}

/// What a step launches instead of a blast around the actor.
#[derive(Clone, Copy, Debug, PartialEq, Eq, Structural)]
pub enum Spawn {
    /// A projectile along the trigger direction.
    Arrow,
}

/// What a step shows when it fires.
#[derive(Clone, Copy, Debug, PartialEq, Eq, Structural)]
pub enum Effect {
    /// Nothing to see.
    Blank,
    /// A circular slash.
    Circle,
    /// A splash.
    Splash,
    /// A projectile.
    Spawn(Spawn),
}

/// One beat of an action: a delay, then an effect, a sound and a lunge.
#[derive(Clone, Copy, Debug, PartialEq, Eq)]
pub struct Step {
    /// Runs down before the step fires.
    pub timer: Timer,
    /// What the step shows.
    pub effect: Effect,
    /// What the step sounds like, if anything.
    pub sfx: Option<SoundCue>,
    /// Strength of the impulse along the trigger direction; zero for none.
    pub forward: u32,
}

impl Step {
    /// A silent step without effect or lunge that fires when `timer` is up.
    pub fn from_timer(timer: Timer) -> (step: Step)
        ensures
            step == (Step { timer, effect: Effect::Blank, sfx: None, forward: 0 }),
    {
        Step { timer, forward: 0, effect: Effect::Blank, sfx: None }
    }

    /// The same step showing `effect`.
    pub fn with_effect(self, effect: Effect) -> (step: Step)
        ensures
            step == (Step { effect, ..self }),
    {
        Step { effect, ..self }
    }

    /// The same step lunging with strength `forward`.
    pub fn with_forward(self, forward: u32) -> (step: Step)
        ensures
            step == (Step { forward, ..self }),
    {
        Step { forward, ..self }
    }

    /// The same step sounding like `sfx`.
    pub fn with_sfx(self, sfx: SoundCue) -> (step: Step)
        ensures
            step == (Step { sfx: Some(sfx), ..self }),
    {
        Step { sfx: Some(sfx), ..self }
    }
}

/// The hold that lengthens a sword action: a timer that stops at its ceiling.
#[derive(Clone, Copy, Debug, PartialEq, Eq, Structural)]
pub struct Charge(pub Timer);

impl Charge {
    /// A charge on which no time has passed.
    pub open spec fn fresh() -> Charge {
        Charge(Timer::fresh((CHARGE_MILLIS * NANOS_PER_MILLI) as u64, TimerMode::Once))
    }

    /// The charge after the trigger was held for `delta` more nanoseconds.
    pub open spec fn held(self, delta: u64) -> Charge {
        Charge(self.0.after_tick(delta))
    }

    /// Whole seconds that the charge has built up.
    pub open spec fn whole_seconds(self) -> nat {
        (self.0.elapsed / NANOS_PER_SEC) as nat
    }

    /// Builds the charge up by `delta` nanoseconds, up to its ceiling.
    pub fn tick(&mut self, delta: u64)
        ensures
            *final(self) == old(self).held(delta),
            old(self).0.wf() ==> final(self).0.wf(),
    {
        let mut timer = self.0;
        timer.tick(delta);
        *self = Charge(timer);
    }
}

impl Default for Charge {
    fn default() -> (charge: Charge)
        ensures
            charge == Charge::fresh(),
            charge.0.wf(),
    {
        Charge(Timer::from_millis(CHARGE_MILLIS, TimerMode::Once))
    }
}

/// Which side an actor fights on, and how much it can still take.
#[derive(Clone, Copy, Debug, PartialEq, Eq, Structural)]
pub struct Health {
    /// The side: 0 for the player's, 1 for the enemies'.
    pub owner: u32,
    /// Hits that the actor can still take.
    pub health: u32,
    /// Hits that the actor could take at first.
    pub max_health: u32,
}

impl Health {
    /// The side is one of the two, and health is within its maximum.
    pub open spec fn wf(&self) -> bool {
        self.owner <= 1 && self.health <= self.max_health
    }
}

/// What a hit-zone carries: who made it and whom it can hurt.
#[derive(Clone, Copy, Debug, PartialEq, Eq, Structural)]
pub struct Damage {
    /// The side of the actor that made the zone.
    pub source_owner: u32,
    /// The side that the zone hurts.
    pub target_owner: u32,
}

impl Damage {
    /// The zone hurts the side opposite to its maker's.
    pub open spec fn wf(&self) -> bool {
        self.source_owner <= 1 && self.target_owner == 1 - self.source_owner
    }

    /// The zone that an actor of side `owner` makes.
    pub open spec fn made_by(owner: u32) -> Damage {
        Damage { source_owner: owner, target_owner: (1 - owner) as u32 }
    }

    /// The descriptor of a zone made by an actor of side `owner`.
    pub fn from_owner(owner: u32) -> (damage: Damage)
        requires
            owner <= 1,
        ensures
            damage == Damage::made_by(owner),
            damage.wf(),
    {
        Damage { source_owner: owner, target_owner: 1 - owner }
    }
}

/// Runs down on what is on its way out; when it is up, the bearer is removed.
#[derive(Clone, Copy, Debug, PartialEq, Eq, Structural)]
pub struct Dying(pub Timer);

/// Where an actor wants to go, if anywhere.
#[derive(Clone, Copy, Debug, PartialEq, Eq)]
pub struct Movement {
    /// The wanted heading; its length is cut to the actor's speed.
    pub move_direction: Option<Direction>,
}

impl Default for Movement {
    fn default() -> (movement: Movement)
        ensures
            movement == (Movement { move_direction: None }),
    {
        Movement { move_direction: None }
    }
}

/// How an actor turns a wanted heading into motion.
#[derive(Clone, Copy, Debug, PartialEq, Eq, Structural)]
pub enum MoveMotion {
    /// A steady push on every tick.
    Sliding { speed: u32 },
    /// A hop each time the timer comes round.
    Bouncing { speed: u32, timer: Timer },
}

/// What an actor is doing.
#[allow(inconsistent_fields)]
#[derive(Clone, Debug, PartialEq, Eq)]
pub enum Actions {
    /// Nothing.
    Idle,
    /// Recovering; no action can begin.
    Cooldown(Timer),
    /// Holding the trigger. The direction is the last one that was given.
    Charging { charge: Charge, trigger_direction: Option<Direction> },
    /// Playing out the steps in order, then recovering.
    Executing { trigger_direction: Direction, pending_cooldown: Timer, steps: VecDeque<Step> },
    /// Asking for another weapon; granted on the next advance.
    ChangePlayerForm(PlayerForm),
}

impl Default for Actions {
    fn default() -> (actions: Actions)
        ensures
            actions@ == ActionState::Idle,
    {
        Actions::Idle
    }
}

/// The value of an [`Actions`]: the same variants, with the steps as a sequence.
#[allow(inconsistent_fields)]
pub enum ActionState {
    Idle,
    Cooldown(Timer),
    Charging { charge: Charge, trigger_direction: Option<Direction> },
    Executing { trigger_direction: Direction, pending_cooldown: Timer, steps: Seq<Step> },
    ChangePlayerForm(PlayerForm),
}

impl View for Actions {
    type V = ActionState;

    open spec fn view(&self) -> ActionState {
        match *self {
            Actions::Idle => ActionState::Idle,
            Actions::Cooldown(timer) => ActionState::Cooldown(timer),
            Actions::Charging { charge, trigger_direction } => ActionState::Charging {
                charge,
                trigger_direction,
            },
            Actions::Executing { trigger_direction, pending_cooldown, steps } => {
                ActionState::Executing { trigger_direction, pending_cooldown, steps: steps@ }
            },
            Actions::ChangePlayerForm(form) => ActionState::ChangePlayerForm(form),
        }
    }
}

impl ActionState {
    /// Whether an actor in this state can be in the state `after` one call
    /// later: it stays as it is, or goes from idleness to a charge or a
    /// change of weapon, from a charge to its release or to idleness, from an
    /// action to its cooldown, from a cooldown or a change of weapon to
    /// idleness.
    pub open spec fn may_become(self, after: ActionState) -> bool {
        match self {
            ActionState::Idle => after is Idle || after is Charging || after is ChangePlayerForm,
            ActionState::Charging { .. } => after is Charging || after is Executing
                || after is Idle,
            ActionState::Executing { .. } => after is Executing || after is Cooldown,
            ActionState::Cooldown(_) => after is Cooldown || after is Idle,
            ActionState::ChangePlayerForm(_) => after is ChangePlayerForm || after is Idle,
        }
    }

    /// Every timer in the state is within its duration.
    pub open spec fn wf(self) -> bool {
        match self {
            ActionState::Idle => true,
            ActionState::Cooldown(timer) => timer.wf(),
            ActionState::Charging { charge, .. } => charge.0.wf(),
            ActionState::Executing { pending_cooldown, steps, .. } => {
                &&& pending_cooldown.wf()
                &&& forall|i: int| 0 <= i < steps.len() ==> (#[trigger] steps[i]).timer.wf()
            },
            ActionState::ChangePlayerForm(_) => true,
        }
    }
}

/// One slash of the sword, `millis` milliseconds after the one before.
pub open spec fn slash(millis: u32) -> Step {
    Step {
        timer: Timer::fresh((millis * NANOS_PER_MILLI) as u64, TimerMode::Once),
        effect: Effect::Circle,
        sfx: Some(SoundCue::Woosh),
        forward: SLASH_FORWARD,
    }
}

/// The steps of a sword action released at `charge`: one slash at once, and
/// one more, each after a pause, for every whole second of charge.
pub open spec fn sword_sequence(charge: Charge) -> Seq<Step> {
    seq![slash(0)] + Seq::new(charge.whole_seconds(), |i: int| slash(SLASH_MILLIS))
}

/// Builds the steps of a sword action released at `charge`.
pub fn sword_steps(charge: &Charge) -> (steps: VecDeque<Step>)
    ensures
        steps@ == sword_sequence(*charge),
        steps@.len() == 1 + charge.0.elapsed / NANOS_PER_SEC,
{
    let mut steps: VecDeque<Step> = VecDeque::new();
    steps.push_back(
        Step::from_timer(Timer::from_millis(0, TimerMode::Once)).with_effect(
            Effect::Circle,
        ).with_forward(SLASH_FORWARD).with_sfx(SoundCue::Woosh),
    );
    let extra: u64 = charge.0.elapsed_secs();
    let mut done: u64 = 0;
    while done < extra
        invariant
            done <= extra,
            steps@ == seq![slash(0)] + Seq::new(done as nat, |i: int| slash(SLASH_MILLIS)),
        decreases extra - done,
    {
        steps.push_back(
            Step::from_timer(Timer::from_millis(SLASH_MILLIS, TimerMode::Once)).with_effect(
                Effect::Circle,
            ).with_forward(SLASH_FORWARD).with_sfx(SoundCue::Woosh),
        );
        done = done + 1;
    }
    steps
}

/// Milliseconds for which a projectile flies.
pub const PROJECTILE_MILLIS: u32 = 700;

/// Scale from a step's forward strength to the impulse of its lunge.
pub const LUNGE_GAIN: u64 = 1000;

/// What a step asks of the world when it fires.
#[derive(Clone, Copy, Debug, PartialEq, Eq)]
pub struct FiredStep {
    /// The hit-zone to place at the actor.
    pub zone: Damage,
    /// What to show there.
    pub effect: Effect,
    /// What to play, if anything.
    pub sfx: Option<SoundCue>,
    /// The heading of the action: the zone faces it, the lunge and any
    /// projectile follow it.
    pub trigger_direction: Direction,
    /// Strength of the impulse on the actor along the heading, if it lunges.
    pub lunge: Option<u64>,
    /// The flight time of the projectile to launch, if the step launches one.
    pub projectile: Option<Dying>,
}

/// What advancing an actor's action asks of the world.
#[derive(Clone, Copy, Debug, PartialEq, Eq)]
pub enum Event {
    /// Nothing.
    Quiet,
    /// The player takes up another weapon.
    FormChanged(PlayerForm),
    /// A step has fired.
    Fired(FiredStep),
}

/// What `step` asks of the world when an actor of side `owner` fires it
/// towards `trigger_direction`.
pub open spec fn firing(step: Step, owner: u32, trigger_direction: Direction) -> FiredStep {
    FiredStep {
        zone: Damage::made_by(owner),
        effect: step.effect,
        sfx: step.sfx,
        trigger_direction,
        lunge: if step.forward != 0 {
            Some((step.forward * LUNGE_GAIN) as u64)
        } else {
            None
        },
        projectile: if step.effect is Spawn {
            Some(Dying(Timer::fresh((PROJECTILE_MILLIS * NANOS_PER_MILLI) as u64, TimerMode::Once)))
        } else {
            None
        },
    }
}

/// Tells what `step` asks of the world when an actor of side `owner` fires
/// it towards `trigger_direction`.
pub fn fire(step: &Step, owner: u32, trigger_direction: Direction) -> (fired: FiredStep)
    requires
        owner <= 1,
    ensures
        fired == firing(*step, owner, trigger_direction),
        fired.zone.wf(),
{
    let lunge = if step.forward != 0 {
        Some(step.forward as u64 * LUNGE_GAIN)
    } else {
        None
    };
    let projectile = match step.effect {
        Effect::Spawn(_) => Some(Dying(Timer::from_millis(PROJECTILE_MILLIS, TimerMode::Once))),
        _ => None,
    };
    FiredStep {
        zone: Damage::from_owner(owner),
        effect: step.effect,
        sfx: step.sfx,
        trigger_direction,
        lunge,
        projectile,
    }
}

impl ActionState {
    /// Whether the step in front fires when `delta` nanoseconds pass.
    pub open spec fn front_fires(self, delta: u64) -> bool {
        self matches ActionState::Executing { steps, .. } && steps.len() > 0
            && steps[0].timer.after_tick(delta).finished
    }

    /// The state after `delta` nanoseconds.
    ///
    /// A request for another weapon is granted at once. A cooldown runs down
    /// and ends in idleness. An action ticks the step in front, drops it when
    /// it fires, and turns into its cooldown on the tick after the last step.
    pub open spec fn advanced(self, delta: u64) -> ActionState {
        match self {
            ActionState::ChangePlayerForm(_) => ActionState::Idle,
            ActionState::Cooldown(timer) => if timer.after_tick(delta).finished {
                ActionState::Idle
            } else {
                ActionState::Cooldown(timer.after_tick(delta))
            },
            ActionState::Executing { trigger_direction, pending_cooldown, steps } => {
                if steps.len() == 0 {
                    ActionState::Cooldown(pending_cooldown)
                } else if steps[0].timer.after_tick(delta).finished {
                    ActionState::Executing {
                        trigger_direction,
                        pending_cooldown,
                        steps: steps.drop_first(),
                    }
                } else {
                    ActionState::Executing {
                        trigger_direction,
                        pending_cooldown,
                        steps: steps.update(
                            0,
                            Step { timer: steps[0].timer.after_tick(delta), ..steps[0] },
                        ),
                    }
                }
            },
            _ => self,
        }
    }

    /// What the advance by `delta` nanoseconds asks of the world, for an
    /// actor of side `owner`.
    pub open spec fn emitted(self, owner: u32, delta: u64) -> Event {
        match self {
            ActionState::ChangePlayerForm(form) => Event::FormChanged(form),
            ActionState::Executing { trigger_direction, steps, .. } => {
                if steps.len() > 0 && steps[0].timer.after_tick(delta).finished {
                    Event::Fired(firing(steps[0], owner, trigger_direction))
                } else {
                    Event::Quiet
                }
            },
            _ => Event::Quiet,
        }
    }
}

/// Tells whether the step in front of `actions` fires when `delta`
/// nanoseconds pass.
pub fn would_fire(actions: &Actions, delta: u64) -> (fires: bool)
    ensures
        fires == actions@.front_fires(delta),
{
    match actions {
        Actions::Executing { steps, .. } => {
            if steps.len() > 0 {
                let mut timer = steps[0].timer;
                timer.tick(delta);
                timer.finished
            } else {
                false
            }
        },
        _ => false,
    }
}

/// Advances the action of an actor of side `owner` by `delta` nanoseconds
/// and tells what that asks of the world.
///
/// Time that a step's timer overshoots is lost: the next step starts from
/// zero on the next advance. Where a step fires, the actor must be of one of
/// the two sides, or there is no opposite side for the zone to hurt.
pub fn character_actions(actions: &mut Actions, owner: u32, delta: u64) -> (event: Event)
    requires
        old(actions)@.front_fires(delta) ==> owner <= 1,
    ensures
        final(actions)@ == old(actions)@.advanced(delta),
        event == old(actions)@.emitted(owner, delta),
        old(actions)@.wf() ==> final(actions)@.wf(),
        old(actions)@.may_become(final(actions)@),
        event matches Event::Fired(fired) ==> fired.zone.wf(),
{
    let mut current = Actions::Idle;
    std::mem::swap(actions, &mut current);
    match current {
        Actions::ChangePlayerForm(form) => Event::FormChanged(form),
        Actions::Cooldown(timer) => {
            let mut timer = timer;
            timer.tick(delta);
            if !timer.finished {
                *actions = Actions::Cooldown(timer);
            }
            Event::Quiet
        },
        Actions::Executing { trigger_direction, pending_cooldown, steps } => {
            let mut steps = steps;
            match steps.pop_front() {
                Some(front) => {
                    let ghost before = seq![front] + steps@;
                    assert(before == old(actions)@->Executing_steps);
                    let mut timer = front.timer;
                    timer.tick(delta);
                    if timer.finished {
                        assert(steps@ == before.drop_first());
                        *actions = Actions::Executing { trigger_direction, pending_cooldown, steps };
                        Event::Fired(fire(&front, owner, trigger_direction))
                    } else {
                        let step = Step { timer, ..front };
                        steps.push_front(step);
                        assert(steps@ == before.update(0, step));
                        *actions = Actions::Executing { trigger_direction, pending_cooldown, steps };
                        Event::Quiet
                    }
                },
                None => {
                    *actions = Actions::Cooldown(pending_cooldown);
                    Event::Quiet
                },
            }
        },
        Actions::Idle => Event::Quiet,
        Actions::Charging { charge, trigger_direction } => {
            *actions = Actions::Charging { charge, trigger_direction };
            Event::Quiet
        },
    }
}

/// A sword action has one step and one more for every whole second of
/// charge. A charge stops at its ceiling of two seconds, so there are one,
/// two or three steps: one below a second, two from there to below two
/// seconds, three at the ceiling.
pub proof fn lemma_charge_to_steps(charge: Charge)
    requires
        charge.0.wf(),
        charge.0.duration == CHARGE_MILLIS * NANOS_PER_MILLI,
    ensures
        sword_sequence(charge).len() == 1 + charge.0.elapsed / NANOS_PER_SEC,
        1 <= sword_sequence(charge).len() <= 3,
        charge.0.elapsed < NANOS_PER_SEC ==> sword_sequence(charge).len() == 1,
        NANOS_PER_SEC <= charge.0.elapsed < 2 * NANOS_PER_SEC ==> sword_sequence(charge).len()
            == 2,
        charge.0.elapsed == 2 * NANOS_PER_SEC ==> sword_sequence(charge).len() == 3,
        forall|i: int|
            0 <= i < sword_sequence(charge).len() ==> #[trigger] sword_sequence(charge)[i]
                == slash(
                if i == 0 {
                    0
                } else {
                    SLASH_MILLIS
                },
            ),
{
}

/// Holding the trigger from idleness for `first` and then `second`
/// nanoseconds charges for their sum, up to the ceiling; the charge stays
/// within its ceiling however long the trigger is held.
pub proof fn lemma_charge_accumulates(first: u64, second: u64)
    ensures
        ({
            let ceiling = CHARGE_MILLIS * NANOS_PER_MILLI;
            let charge = Charge::fresh().held(first).held(second);
            &&& charge.0.wf()
            &&& charge.0.duration == ceiling
            &&& charge.0.elapsed == if first + second < ceiling {
                first + second
            } else {
                ceiling
            }
        }),
{
}

/// Advancing an action only ever leaves it as it is or takes it from an
/// action to its cooldown and from a cooldown or a change of weapon to
/// idleness; idleness and a charge do not move by themselves.
pub proof fn lemma_advanced_is_closed(state: ActionState, delta: u64)
    ensures
        state.may_become(state.advanced(delta)),
        state is Idle || state is Charging ==> state.advanced(delta) == state,
        state is Executing ==> (state.advanced(delta) is Cooldown <==> state->steps.len() == 0),
        state is ChangePlayerForm ==> state.advanced(delta) is Idle,
{
}

/// The steps of an action are played in the order they were built in: an
/// advance either fires the step in front and leaves the rest as they are,
/// or runs the timer of the step in front and leaves every step in place.
pub proof fn lemma_steps_in_order(state: ActionState, owner: u32, delta: u64)
    requires
        state is Executing,
        state->steps.len() > 0,
    ensures
        ({
            let before = state->steps;
            let after = state.advanced(delta);
            &&& after is Executing
            &&& after->Executing_trigger_direction == state->Executing_trigger_direction
            &&& after->pending_cooldown == state->pending_cooldown
            &&& after->steps.drop_first() == if state.front_fires(delta) {
                before.drop_first().drop_first()
            } else {
                before.drop_first()
            }
            &&& state.front_fires(delta) ==> after->steps == before.drop_first()
                && state.emitted(owner, delta) == Event::Fired(
                firing(before[0], owner, state->Executing_trigger_direction),
            )
            &&& !state.front_fires(delta) ==> after->steps.len() == before.len()
                && after->steps[0].timer == before[0].timer.after_tick(delta)
                && state.emitted(owner, delta) == Event::Quiet
        }),
{
}

/// Only an action whose step in front comes due asks for a hit-zone, and
/// the zone it asks for hurts the side opposite to the actor's.
pub proof fn lemma_zone_opposes_owner(state: ActionState, owner: u32, delta: u64)
    requires
        owner <= 1,
    ensures
        state.emitted(owner, delta) is Fired <==> state.front_fires(delta),
        state.emitted(owner, delta) matches Event::Fired(fired) ==> fired.zone.wf()
            && fired.zone.source_owner == owner && fired.zone.target_owner == 1 - owner,
{
}

} // verus!
