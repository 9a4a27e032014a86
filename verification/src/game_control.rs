//! From keys, sticks and touches to what the player's actor does.

use crate::actions::{
    sword_sequence, sword_steps, ActionState, Actions, Charge, Step, SWORD_COOLDOWN_MILLIS,
};
use crate::direction::{Direction, UNIT};
use crate::player::{Player, PlayerForm};
use crate::timer::{Timer, TimerMode, NANOS_PER_MILLI, NANOS_PER_SEC};
use std::collections::VecDeque;
use vstd::prelude::*;

verus! {

/// Grid steps that a stick must be pushed beyond to count.
pub const DEAD_ZONE: u32 = UNIT / 10;

/// Grid steps that a touch must lie beyond the player to be followed.
pub const FOLLOW_EPSILON: u32 = 5 * UNIT;

/// The keys that matter, each down or not.
#[derive(Clone, Copy, Debug, PartialEq, Eq, Structural)]
pub struct Keyboard {
    pub key_w: bool,
    pub key_a: bool,
    pub key_s: bool,
    pub key_d: bool,
    pub arrow_up: bool,
    pub arrow_down: bool,
    pub arrow_left: bool,
    pub arrow_right: bool,
    pub space: bool,
    pub digit1: bool,
    pub digit2: bool,
}

/// What matters of one gamepad.
#[derive(Clone, Copy, Debug, PartialEq, Eq)]
pub struct Gamepad {
    /// The left stick, where the pad reports both of its axes.
    pub left_stick: Option<Direction>,
    /// Whether the south button is down.
    pub south: bool,
}

/// One of the four ways to steer by keys.
#[derive(Clone, Copy, Debug, PartialEq, Eq, Structural)]
pub enum GameControl {
    Up,
    Down,
    Left,
    Right,
}

impl GameControl {
    /// Whether one of the two keys of the control is down.
    pub open spec fn is_pressed(self, keyboard: Keyboard) -> bool {
        match self {
            GameControl::Up => keyboard.key_w || keyboard.arrow_up,
            GameControl::Down => keyboard.key_s || keyboard.arrow_down,
            GameControl::Left => keyboard.key_a || keyboard.arrow_left,
            GameControl::Right => keyboard.key_d || keyboard.arrow_right,
        }
    }

    /// How far the control steers: one step if it is pressed, none if not.
    pub open spec fn movement(self, keyboard: Keyboard) -> int {
        if self.is_pressed(keyboard) {
            1
        } else {
            0
        }
    }

    /// Tells whether one of the two keys of the control is down.
    pub fn pressed(&self, keyboard_input: &Keyboard) -> (down: bool)
        ensures
            down == self.is_pressed(*keyboard_input),
    {
        match self {
            GameControl::Up => keyboard_input.key_w || keyboard_input.arrow_up,
            GameControl::Down => keyboard_input.key_s || keyboard_input.arrow_down,
            GameControl::Left => keyboard_input.key_a || keyboard_input.arrow_left,
            GameControl::Right => keyboard_input.key_d || keyboard_input.arrow_right,
        }
    }
}

/// Gives 1 if `control` is pressed and 0 if it is not.
pub fn get_movement(control: GameControl, input: &Keyboard) -> (steps: i32)
    ensures
        steps == control.movement(*input),
{
    if control.pressed(input) {
        1
    } else {
        0
    }
}

/// What the player asks for in one tick.
#[derive(Clone, Copy, Debug, PartialEq, Eq)]
pub struct Intent {
    /// The heading, if one is given.
    pub direction: Option<Direction>,
    /// Whether the trigger is held.
    pub triggering: bool,
    /// The weapon asked for, if any.
    pub form: Option<PlayerForm>,
}

/// The heading that the keys give: right less left, up less down.
pub open spec fn key_heading(keyboard: Keyboard) -> Direction {
    Direction {
        x: ((GameControl::Right.movement(keyboard) - GameControl::Left.movement(keyboard))
            * UNIT) as i32,
        y: ((GameControl::Up.movement(keyboard) - GameControl::Down.movement(keyboard))
            * UNIT) as i32,
    }
}

/// Whether the pad's stick is pushed beyond the dead zone.
pub open spec fn stick_counts(gamepad: Gamepad) -> bool {
    gamepad.left_stick matches Some(stick) && stick.longer_than(DEAD_ZONE)
}

/// The stick of the first of `gamepads` that is pushed beyond the dead zone.
pub open spec fn stick_heading(gamepads: Seq<Gamepad>) -> Option<Direction>
    decreases gamepads.len(),
{
    if gamepads.len() == 0 {
        None
    } else if stick_counts(gamepads[0]) {
        gamepads[0].left_stick
    } else {
        stick_heading(gamepads.drop_first())
    }
}

/// Whether a touch at the offset `touch` from the player is followed.
pub open spec fn touch_counts(touch: Option<Direction>) -> bool {
    touch matches Some(offset) && offset.longer_than(FOLLOW_EPSILON)
}

/// The heading that the player gives: towards a touch far enough away, else
/// along the first stick that is pushed far enough, else by the keys; none
/// where that comes to no heading at all.
pub open spec fn wanted_heading(
    keyboard: Keyboard,
    gamepads: Seq<Gamepad>,
    touch: Option<Direction>,
) -> Option<Direction> {
    let heading = if touch_counts(touch) {
        touch->0
    } else if stick_heading(gamepads) is Some {
        stick_heading(gamepads)->0
    } else {
        key_heading(keyboard)
    };
    if heading.is_zero() {
        None
    } else {
        Some(heading)
    }
}

/// Whether the trigger is held: by the space bar or by the south button of
/// any pad.
pub open spec fn trigger_held(keyboard: Keyboard, gamepads: Seq<Gamepad>) -> bool {
    keyboard.space || exists|i: int| 0 <= i < gamepads.len() && (#[trigger] gamepads[i]).south
}

/// The weapon that the digit keys ask for; the first digit wins.
pub open spec fn wanted_form(keyboard: Keyboard) -> Option<PlayerForm> {
    if keyboard.digit1 {
        Some(PlayerForm::Sword)
    } else if keyboard.digit2 {
        Some(PlayerForm::Bow)
    } else {
        None
    }
}

/// What the devices ask for. `touch` is the offset from the player to the
/// first touch, if there is one.
pub open spec fn intent_of(keyboard: Keyboard, gamepads: Seq<Gamepad>, touch: Option<Direction>) -> Intent {
    Intent {
        direction: wanted_heading(keyboard, gamepads, touch),
        triggering: trigger_held(keyboard, gamepads),
        form: wanted_form(keyboard),
    }
}

/// Reads what the player asks for off the devices. `touch` is the offset
/// from the player to the first touch, if there is one.
pub fn read_intent(keyboard: &Keyboard, gamepads: &Vec<Gamepad>, touch: Option<Direction>) -> (intent:
    Intent)
    ensures
        intent == intent_of(*keyboard, gamepads@, touch),
{
    let right = get_movement(GameControl::Right, keyboard);
    let left = get_movement(GameControl::Left, keyboard);
    let up = get_movement(GameControl::Up, keyboard);
    let down = get_movement(GameControl::Down, keyboard);
    let unit = UNIT as i32;
    let mut heading = Direction { x: (right - left) * unit, y: (up - down) * unit };
    let mut stick: Option<Direction> = None;
    let mut south = false;
    let mut i: usize = 0;
    assert(gamepads@.skip(0) == gamepads@);
    while i < gamepads.len()
        invariant
            i <= gamepads.len(),
            stick is Some ==> stick == stick_heading(gamepads@),
            stick is None ==> stick_heading(gamepads@) == stick_heading(gamepads@.skip(i as int)),
            south == exists|j: int| 0 <= j < i && (#[trigger] gamepads@[j]).south,
        decreases gamepads.len() - i,
    {
        let gamepad = gamepads[i];
        proof {
            let rest = gamepads@.skip(i as int);
            assert(rest[0] == gamepads@[i as int]);
            assert(rest.drop_first() == gamepads@.skip(i + 1));
        }
        if stick.is_none() {
            match gamepad.left_stick {
                Some(pushed) => {
                    if pushed.exceeds(DEAD_ZONE) {
                        stick = Some(pushed);
                    }
                },
                None => {},
            }
        }
        if gamepad.south {
            south = true;
        }
        i = i + 1;
    }
    match stick {
        Some(pushed) => {
            heading = pushed;
        },
        None => {},
    }
    match touch {
        Some(offset) => {
            if offset.exceeds(FOLLOW_EPSILON) {
                heading = offset;
            }
        },
        None => {},
    }
    let direction = if heading.at_rest() {
        None
    } else {
        Some(heading)
    };
    let form = if keyboard.digit1 {
        Some(PlayerForm::Sword)
    } else if keyboard.digit2 {
        Some(PlayerForm::Bow)
    } else {
        None
    };
    Intent { direction, triggering: keyboard.space || south, form }
}

/// The heading given now, or else the one kept from before.
pub open spec fn latest(now: Option<Direction>, kept: Option<Direction>) -> Option<Direction> {
    if now is Some {
        now
    } else {
        kept
    }
}

/// The steps that letting go of `charge` begins with `form` in hand: the
/// slashes of the sword, which the bow, having no steps of its own, borrows.
pub open spec fn released_sequence(form: PlayerForm, charge: Charge) -> Seq<Step> {
    match form {
        PlayerForm::Sword => sword_sequence(charge),
        PlayerForm::Bow => sword_sequence(charge),
    }
}

/// Builds the steps that letting go of `charge` begins with `form` in hand.
pub fn released_steps(form: PlayerForm, charge: &Charge) -> (steps: VecDeque<Step>)
    ensures
        steps@ == released_sequence(form, *charge),
        steps@.len() == 1 + charge.0.elapsed / NANOS_PER_SEC,
{
    match form {
        PlayerForm::Sword => sword_steps(charge),
        PlayerForm::Bow => sword_steps(charge),
    }
}

/// The state that the player's intent leads to when `delta` nanoseconds
/// have passed.
///
/// Holding the trigger starts a charge from idleness and builds it up,
/// keeping the last heading given; the call that starts the charge already
/// counts its `delta` and takes its heading. Letting go of a charge releases
/// the action of the weapon `form` along that heading, or, with no heading at
/// all, returns to idleness without any cooldown. Letting go while idle takes
/// up the weapon asked for. In every other state the intent is ignored.
pub open spec fn steered(
    state: ActionState,
    form: PlayerForm,
    intent: Intent,
    delta: u64,
) -> ActionState {
    if intent.triggering {
        match state {
            ActionState::Idle => ActionState::Charging {
                charge: Charge::fresh().held(delta),
                trigger_direction: intent.direction,
            },
            ActionState::Charging { charge, trigger_direction } => ActionState::Charging {
                charge: charge.held(delta),
                trigger_direction: latest(intent.direction, trigger_direction),
            },
            _ => state,
        }
    } else {
        match state {
            ActionState::Charging { charge, trigger_direction } => match latest(
                intent.direction,
                trigger_direction,
            ) {
                Some(heading) => ActionState::Executing {
                    trigger_direction: heading,
                    pending_cooldown: Timer::fresh(
                        (SWORD_COOLDOWN_MILLIS * NANOS_PER_MILLI) as u64,
                        TimerMode::Once,
                    ),
                    steps: released_sequence(form, charge),
                },
                None => ActionState::Idle,
            },
            ActionState::Idle => match intent.form {
                Some(form) => ActionState::ChangePlayerForm(form),
                None => ActionState::Idle,
            },
            _ => state,
        }
    }
}

/// Applies the player's intent to the action of its actor, `delta`
/// nanoseconds after the last tick. `form` is the weapon in hand.
pub fn apply_intent(actions: &mut Actions, form: PlayerForm, intent: &Intent, delta: u64)
    ensures
        final(actions)@ == steered(old(actions)@, form, *intent, delta),
        old(actions)@.wf() ==> final(actions)@.wf(),
        old(actions)@.may_become(final(actions)@),
{
    let mut current = Actions::Idle;
    std::mem::swap(actions, &mut current);
    if intent.triggering {
        match current {
            Actions::Idle => {
                let mut charge = Charge::default();
                charge.tick(delta);
                *actions = Actions::Charging { charge, trigger_direction: intent.direction };
            },
            Actions::Charging { charge, trigger_direction } => {
                let mut charge = charge;
                charge.tick(delta);
                let kept = match intent.direction {
                    Some(heading) => Some(heading),
                    None => trigger_direction,
                };
                *actions = Actions::Charging { charge, trigger_direction: kept };
            },
            other => {
                *actions = other;
            },
        }
    } else {
        match current {
            Actions::Charging { charge, trigger_direction } => {
                let kept = match intent.direction {
                    Some(heading) => Some(heading),
                    None => trigger_direction,
                };
                match kept {
                    Some(heading) => {
                        *actions = Actions::Executing {
                            trigger_direction: heading,
                            pending_cooldown: Timer::from_millis(
                                SWORD_COOLDOWN_MILLIS,
                                TimerMode::Once,
                            ),
                            steps: released_steps(form, &charge),
                        };
                    },
                    None => {},
                }
            },
            Actions::Idle => {
                match intent.form {
                    Some(wanted) => {
                        *actions = Actions::ChangePlayerForm(wanted);
                    },
                    None => {},
                }
            },
            other => {
                *actions = other;
            },
        }
    }
}

/// Reads the devices and applies what the player asks for to the action of
/// its actor, `delta` nanoseconds after the last tick. `touch` is the offset
/// from the player to the first touch, if there is one.
pub fn keyboard_input(
    actions: &mut Actions,
    player: &Player,
    keyboard: &Keyboard,
    gamepads: &Vec<Gamepad>,
    touch: Option<Direction>,
    delta: u64,
)
    ensures
        final(actions)@ == steered(
            old(actions)@,
            player.form,
            intent_of(*keyboard, gamepads@, touch),
            delta,
        ),
        old(actions)@.wf() ==> final(actions)@.wf(),
        old(actions)@.may_become(final(actions)@),
{
    let intent = read_intent(keyboard, gamepads, touch);
    apply_intent(actions, player.form, &intent, delta);
}

/// Whatever the player asks for, its action only ever stays as it is or
/// passes from idleness to a charge or a change of weapon, and from a charge
/// to its release or back to idleness.
pub proof fn lemma_steered_is_closed(
    state: ActionState,
    form: PlayerForm,
    intent: Intent,
    delta: u64,
)
    ensures
        state.may_become(steered(state, form, intent, delta)),
        !(state is Idle || state is Charging) ==> steered(state, form, intent, delta) == state,
{
}

/// Letting go of a charge that has a heading, given now or kept from
/// before, always begins an action along it, whichever weapon is in hand:
/// one step and one more for every whole second of charge, then a second of
/// cooldown.
pub proof fn lemma_release_begins_action(
    form: PlayerForm,
    charge: Charge,
    kept: Option<Direction>,
    intent: Intent,
    delta: u64,
)
    requires
        !intent.triggering,
        latest(intent.direction, kept) is Some,
    ensures
        ({
            let before = ActionState::Charging { charge, trigger_direction: kept };
            let after = steered(before, form, intent, delta);
            &&& after is Executing
            &&& after->Executing_trigger_direction == latest(intent.direction, kept)->0
            &&& after->steps == sword_sequence(charge)
            &&& after->steps.len() == 1 + charge.0.elapsed / NANOS_PER_SEC
            &&& after->pending_cooldown == Timer::fresh(
                (SWORD_COOLDOWN_MILLIS * NANOS_PER_MILLI) as u64,
                TimerMode::Once,
            )
        }),
{
}

/// Holding the trigger from idleness for `held` nanoseconds and then letting
/// go with a heading begins an action along that heading that has one step
/// and one more for every whole second held, up to the two seconds of the
/// ceiling.
pub proof fn lemma_hold_then_release(form: PlayerForm, held: u64, heading: Direction, delta: u64)
    ensures
        ({
            let hold = Intent { direction: None, triggering: true, form: None };
            let release = Intent { direction: Some(heading), triggering: false, form: None };
            let after = steered(
                steered(ActionState::Idle, form, hold, held),
                form,
                release,
                delta,
            );
            &&& after is Executing
            &&& after->Executing_trigger_direction == heading
            &&& after->steps.len() == 1 + if held < 2 * NANOS_PER_SEC {
                held / NANOS_PER_SEC
            } else {
                2
            }
            &&& after.wf()
        }),
{
}

/// Letting go of a charge that never had a heading costs nothing: the actor
/// is idle at once, and no cooldown follows.
pub proof fn lemma_abort_is_free(
    charge: Charge,
    form: PlayerForm,
    wanted: Option<PlayerForm>,
    delta: u64,
    later: u64,
)
    ensures
        ({
            let state = ActionState::Charging { charge, trigger_direction: None };
            let intent = Intent { direction: None, triggering: false, form: wanted };
            &&& steered(state, form, intent, delta) == ActionState::Idle
            &&& steered(state, form, intent, delta).advanced(later) == ActionState::Idle
        }),
{
}

} // verus!
