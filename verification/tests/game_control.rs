use combat_core::actions::{Actions, Charge, Effect, SoundCue, Step};
use combat_core::direction::Direction;
use combat_core::game_control::{
    apply_intent, get_movement, keyboard_input, read_intent, released_steps, GameControl,
    Gamepad, Intent, Keyboard, DEAD_ZONE, FOLLOW_EPSILON,
};
use combat_core::player::{Player, PlayerForm};
use combat_core::timer::{Timer, TimerMode, NANOS_PER_MILLI, NANOS_PER_SEC};
use std::collections::VecDeque;

fn no_keys() -> Keyboard {
    Keyboard {
        key_w: false,
        key_a: false,
        key_s: false,
        key_d: false,
        arrow_up: false,
        arrow_down: false,
        arrow_left: false,
        arrow_right: false,
        space: false,
        digit1: false,
        digit2: false,
    }
}

fn east() -> Direction {
    Direction { x: 1000, y: 0 }
}

fn north() -> Direction {
    Direction { x: 0, y: 1000 }
}

fn slash(millis: u32) -> Step {
    Step {
        timer: Timer::from_millis(millis, TimerMode::Once),
        effect: Effect::Circle,
        sfx: Some(SoundCue::Woosh),
        forward: 20,
    }
}

fn hold(direction: Option<Direction>) -> Intent {
    Intent { direction, triggering: true, form: None }
}

fn release(direction: Option<Direction>) -> Intent {
    Intent { direction, triggering: false, form: None }
}

fn charge_of(nanos: u64) -> Charge {
    let mut charge = Charge::default();
    charge.tick(nanos);
    charge
}

#[test]
fn thresholds_keep_their_values() {
    assert_eq!(DEAD_ZONE, 100);
    assert_eq!(FOLLOW_EPSILON, 5000);
}

#[test]
fn each_control_has_two_keys() {
    let none = no_keys();
    for control in [GameControl::Up, GameControl::Down, GameControl::Left, GameControl::Right] {
        assert!(!control.pressed(&none));
        assert_eq!(get_movement(control, &none), 0);
    }
    assert!(GameControl::Up.pressed(&Keyboard { key_w: true, ..none }));
    assert!(GameControl::Up.pressed(&Keyboard { arrow_up: true, ..none }));
    assert!(GameControl::Down.pressed(&Keyboard { key_s: true, ..none }));
    assert!(GameControl::Down.pressed(&Keyboard { arrow_down: true, ..none }));
    assert!(GameControl::Left.pressed(&Keyboard { key_a: true, ..none }));
    assert!(GameControl::Left.pressed(&Keyboard { arrow_left: true, ..none }));
    assert!(GameControl::Right.pressed(&Keyboard { key_d: true, ..none }));
    assert!(GameControl::Right.pressed(&Keyboard { arrow_right: true, ..none }));
    assert!(!GameControl::Up.pressed(&Keyboard { key_s: true, key_a: true, key_d: true, ..none }));
    assert_eq!(get_movement(GameControl::Right, &Keyboard { key_d: true, ..none }), 1);
    assert_eq!(get_movement(GameControl::Left, &Keyboard { key_d: true, ..none }), 0);
}

#[test]
fn keys_give_a_heading() {
    let none = no_keys();
    let intent = read_intent(&Keyboard { key_d: true, arrow_up: true, ..none }, &vec![], None);
    assert_eq!(intent.direction, Some(Direction { x: 1000, y: 1000 }));
    let intent = read_intent(&Keyboard { key_a: true, key_s: true, ..none }, &vec![], None);
    assert_eq!(intent.direction, Some(Direction { x: -1000, y: -1000 }));
    assert!(!intent.triggering);
    assert_eq!(intent.form, None);
}

#[test]
fn opposite_keys_cancel() {
    let none = no_keys();
    let intent = read_intent(&Keyboard { key_a: true, key_d: true, ..none }, &vec![], None);
    assert_eq!(intent.direction, None);
    assert_eq!(read_intent(&none, &vec![], None), release(None));
}

#[test]
fn first_stick_beyond_the_dead_zone_overrides_the_keys() {
    let keys = Keyboard { key_d: true, ..no_keys() };
    let resting = Gamepad { left_stick: Some(Direction { x: 100, y: 0 }), south: false };
    let axes_missing = Gamepad { left_stick: None, south: false };
    let pushed = Gamepad { left_stick: Some(Direction { x: 0, y: -101 }), south: false };
    let also_pushed = Gamepad { left_stick: Some(Direction { x: 900, y: 0 }), south: false };
    let intent = read_intent(&keys, &vec![resting, axes_missing, pushed, also_pushed], None);
    assert_eq!(intent.direction, Some(Direction { x: 0, y: -101 }));
    let intent = read_intent(&keys, &vec![resting, axes_missing], None);
    assert_eq!(intent.direction, Some(east()));
}

#[test]
fn touch_beyond_the_epsilon_overrides_everything() {
    let keys = Keyboard { key_d: true, ..no_keys() };
    let pushed = Gamepad { left_stick: Some(Direction { x: 0, y: 500 }), south: false };
    let near = Some(Direction { x: 5000, y: 0 });
    let far = Some(Direction { x: -5001, y: 0 });
    assert_eq!(read_intent(&keys, &vec![pushed], near).direction, Some(Direction { x: 0, y: 500 }));
    assert_eq!(read_intent(&keys, &vec![pushed], far).direction, Some(Direction { x: -5001, y: 0 }));
    assert_eq!(read_intent(&keys, &vec![], near).direction, Some(east()));
}

#[test]
fn space_or_any_south_button_triggers() {
    let none = no_keys();
    let idle_pad = Gamepad { left_stick: None, south: false };
    let south_pad = Gamepad { left_stick: None, south: true };
    assert!(read_intent(&Keyboard { space: true, ..none }, &vec![], None).triggering);
    assert!(read_intent(&none, &vec![idle_pad, south_pad], None).triggering);
    assert!(read_intent(&none, &vec![south_pad, idle_pad], None).triggering);
    assert!(!read_intent(&none, &vec![idle_pad, idle_pad], None).triggering);
}

#[test]
fn first_digit_wins() {
    let none = no_keys();
    assert_eq!(read_intent(&Keyboard { digit1: true, ..none }, &vec![], None).form, Some(PlayerForm::Sword));
    assert_eq!(read_intent(&Keyboard { digit2: true, ..none }, &vec![], None).form, Some(PlayerForm::Bow));
    assert_eq!(
        read_intent(&Keyboard { digit1: true, digit2: true, ..none }, &vec![], None).form,
        Some(PlayerForm::Sword)
    );
}

#[test]
fn holding_from_idle_starts_a_charge_and_ticks_it() {
    let mut actions = Actions::Idle;
    apply_intent(&mut actions, PlayerForm::Sword, &hold(Some(east())), 16 * NANOS_PER_MILLI);
    assert_eq!(
        actions,
        Actions::Charging {
            charge: charge_of(16 * NANOS_PER_MILLI),
            trigger_direction: Some(east())
        }
    );
}

#[test]
fn holding_keeps_the_last_heading() {
    let mut actions = Actions::Idle;
    apply_intent(&mut actions, PlayerForm::Sword, &hold(None), 100);
    assert_eq!(actions, Actions::Charging { charge: charge_of(100), trigger_direction: None });
    apply_intent(&mut actions, PlayerForm::Sword, &hold(Some(east())), 100);
    assert_eq!(actions, Actions::Charging { charge: charge_of(200), trigger_direction: Some(east()) });
    apply_intent(&mut actions, PlayerForm::Sword, &hold(None), 100);
    assert_eq!(actions, Actions::Charging { charge: charge_of(300), trigger_direction: Some(east()) });
    apply_intent(&mut actions, PlayerForm::Sword, &hold(Some(north())), 100);
    assert_eq!(actions, Actions::Charging { charge: charge_of(400), trigger_direction: Some(north()) });
}

#[test]
fn release_uses_the_heading_of_the_moment_first() {
    let mut actions = Actions::Charging { charge: charge_of(0), trigger_direction: Some(east()) };
    apply_intent(&mut actions, PlayerForm::Sword, &release(Some(north())), 100);
    assert_eq!(
        actions,
        Actions::Executing {
            trigger_direction: north(),
            pending_cooldown: Timer::from_millis(1000, TimerMode::Once),
            steps: VecDeque::from(vec![slash(0)]),
        }
    );
    let mut actions = Actions::Charging { charge: charge_of(0), trigger_direction: Some(east()) };
    apply_intent(&mut actions, PlayerForm::Sword, &release(None), 100);
    assert!(matches!(actions, Actions::Executing { trigger_direction, .. } if trigger_direction == east()));
}

#[test]
fn release_does_not_tick_the_charge() {
    let mut actions = Actions::Charging {
        charge: charge_of(999_999_999),
        trigger_direction: Some(east()),
    };
    apply_intent(&mut actions, PlayerForm::Sword, &release(None), NANOS_PER_SEC);
    assert!(matches!(actions, Actions::Executing { ref steps, .. } if steps.len() == 1));
}

#[test]
fn charge_to_steps() {
    let cases: [(u64, usize); 9] = [
        (0, 1),
        (500_000_000, 1),
        (999_999_999, 1),
        (1_000_000_000, 2),
        (1_500_000_000, 2),
        (1_999_999_999, 2),
        (2_000_000_000, 3),
        (2_500_000_000, 3),
        (2_999_999_999, 3),
    ];
    for (held, expected) in cases {
        let mut actions = Actions::Idle;
        apply_intent(&mut actions, PlayerForm::Sword, &hold(Some(east())), held);
        apply_intent(&mut actions, PlayerForm::Sword, &release(None), 0);
        match actions {
            Actions::Executing { steps, .. } => {
                assert_eq!(steps.len(), expected);
                assert_eq!(steps[0], slash(0));
                for i in 1..steps.len() {
                    assert_eq!(steps[i], slash(200));
                }
            }
            _ => panic!("the release did not begin an action"),
        }
    }
}

#[test]
fn charge_built_over_many_ticks_counts_the_same() {
    let mut actions = Actions::Idle;
    for _ in 0..100 {
        apply_intent(&mut actions, PlayerForm::Sword, &hold(Some(east())), 16 * NANOS_PER_MILLI);
    }
    apply_intent(&mut actions, PlayerForm::Sword, &release(None), 16 * NANOS_PER_MILLI);
    assert!(matches!(actions, Actions::Executing { ref steps, .. } if steps.len() == 2));
}

#[test]
fn abort_without_cooldown() {
    let mut actions = Actions::Idle;
    apply_intent(&mut actions, PlayerForm::Sword, &hold(None), NANOS_PER_SEC);
    assert!(matches!(actions, Actions::Charging { trigger_direction: None, .. }));
    apply_intent(&mut actions, PlayerForm::Sword, &release(None), 16 * NANOS_PER_MILLI);
    assert_eq!(actions, Actions::Idle);
    // The trigger can be held again at once.
    apply_intent(&mut actions, PlayerForm::Sword, &hold(None), 1);
    assert!(matches!(actions, Actions::Charging { .. }));
}

#[test]
fn abort_is_free_with_the_bow_too() {
    let mut actions = Actions::Charging { charge: charge_of(7), trigger_direction: None };
    apply_intent(&mut actions, PlayerForm::Bow, &release(None), 1);
    assert_eq!(actions, Actions::Idle);
}

#[test]
fn idle_takes_up_the_wanted_form_when_not_triggering() {
    let mut actions = Actions::Idle;
    let wanted = Intent { direction: None, triggering: false, form: Some(PlayerForm::Bow) };
    apply_intent(&mut actions, PlayerForm::Sword, &wanted, 1);
    assert_eq!(actions, Actions::ChangePlayerForm(PlayerForm::Bow));
    let mut actions = Actions::Idle;
    let both = Intent { direction: None, triggering: true, form: Some(PlayerForm::Bow) };
    apply_intent(&mut actions, PlayerForm::Sword, &both, 1);
    assert!(matches!(actions, Actions::Charging { .. }));
}

#[test]
fn input_is_ignored_outside_idle_and_charging() {
    let states = [
        Actions::Cooldown(Timer::from_millis(1000, TimerMode::Once)),
        Actions::Executing {
            trigger_direction: east(),
            pending_cooldown: Timer::from_millis(1000, TimerMode::Once),
            steps: VecDeque::from(vec![slash(0), slash(200)]),
        },
        Actions::ChangePlayerForm(PlayerForm::Bow),
    ];
    let intents = [
        hold(Some(north())),
        hold(None),
        release(Some(north())),
        Intent { direction: None, triggering: false, form: Some(PlayerForm::Sword) },
    ];
    for state in states.iter() {
        for intent in intents.iter() {
            let mut actions = state.clone();
            apply_intent(&mut actions, PlayerForm::Sword, intent, NANOS_PER_SEC);
            assert_eq!(&actions, state);
        }
    }
}

#[test]
fn keyboard_input_reads_and_applies() {
    let player = Player::default();
    let mut actions = Actions::Idle;
    let held = Keyboard { space: true, key_w: true, ..no_keys() };
    keyboard_input(&mut actions, &player, &held, &vec![], None, 1_200 * NANOS_PER_MILLI);
    assert_eq!(
        actions,
        Actions::Charging {
            charge: charge_of(1_200 * NANOS_PER_MILLI),
            trigger_direction: Some(north())
        }
    );
    keyboard_input(&mut actions, &player, &no_keys(), &vec![], None, 16 * NANOS_PER_MILLI);
    assert_eq!(
        actions,
        Actions::Executing {
            trigger_direction: north(),
            pending_cooldown: Timer::from_millis(1000, TimerMode::Once),
            steps: VecDeque::from(vec![slash(0), slash(200)]),
        }
    );
}

#[test]
fn keyboard_input_selects_a_form_from_idle() {
    let player = Player::default();
    let mut actions = Actions::Idle;
    keyboard_input(&mut actions, &player, &Keyboard { digit2: true, ..no_keys() }, &vec![], None, 1);
    assert_eq!(actions, Actions::ChangePlayerForm(PlayerForm::Bow));
}

#[test]
fn the_bow_releases_a_charge_as_the_sword_does() {
    for (kept, now) in [(Some(east()), None), (None, Some(north())), (Some(east()), Some(north()))] {
        let mut with_bow = Actions::Charging { charge: charge_of(1_200_000_000), trigger_direction: kept };
        let mut with_sword = with_bow.clone();
        apply_intent(&mut with_bow, PlayerForm::Bow, &release(now), 16 * NANOS_PER_MILLI);
        apply_intent(&mut with_sword, PlayerForm::Sword, &release(now), 16 * NANOS_PER_MILLI);
        assert_eq!(
            with_bow,
            Actions::Executing {
                trigger_direction: now.or(kept).expect("a heading was given"),
                pending_cooldown: Timer::from_millis(1000, TimerMode::Once),
                steps: VecDeque::from(vec![slash(0), slash(200)]),
            }
        );
        assert_eq!(with_bow, with_sword);
    }
}

#[test]
fn keyboard_input_releases_with_the_bow_in_hand() {
    let player = Player { form: PlayerForm::Bow, score: 0 };
    let mut actions = Actions::Charging { charge: charge_of(5), trigger_direction: Some(east()) };
    keyboard_input(&mut actions, &player, &no_keys(), &vec![], None, 1);
    assert!(matches!(
        actions,
        Actions::Executing { trigger_direction, ref steps, .. }
            if trigger_direction == east() && steps.len() == 1
    ));
}

#[test]
fn released_steps_are_the_slashes_for_either_weapon() {
    for form in [PlayerForm::Sword, PlayerForm::Bow] {
        assert_eq!(released_steps(form, &charge_of(0)), VecDeque::from(vec![slash(0)]));
        assert_eq!(
            released_steps(form, &charge_of(2 * NANOS_PER_SEC)),
            VecDeque::from(vec![slash(0), slash(200), slash(200)])
        );
    }
}

#[test]
fn the_bow_can_charge_and_change_back() {
    let mut actions = Actions::Idle;
    apply_intent(&mut actions, PlayerForm::Bow, &hold(Some(east())), 100);
    assert_eq!(actions, Actions::Charging { charge: charge_of(100), trigger_direction: Some(east()) });
    let mut actions = Actions::Idle;
    let wanted = Intent { direction: None, triggering: false, form: Some(PlayerForm::Sword) };
    apply_intent(&mut actions, PlayerForm::Bow, &wanted, 100);
    assert_eq!(actions, Actions::ChangePlayerForm(PlayerForm::Sword));
}
