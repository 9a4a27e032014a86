use combat_core::actions::{Actions, Charge, Health};
use combat_core::animation::{animate_sprite, AnimationIndices, AnimationTimer};
use combat_core::direction::Direction;
use combat_core::physics::CollisionLayer;
use combat_core::player::{update_direction_arrow, Aim, DirectionArrow, Player, PlayerForm};
use combat_core::timer::{Timer, TimerMode, NANOS_PER_MILLI, NANOS_PER_SEC};
use combat_core::ui::{update_cooldown_displays, update_health_display, Pip};
use std::collections::VecDeque;

fn cooldown_after(duration: u64, elapsed: u64) -> Actions {
    let mut timer = Timer::new(duration, TimerMode::Once);
    timer.tick(elapsed);
    Actions::Cooldown(timer)
}

#[test]
fn cooldown_display_rounds_up() {
    assert_eq!(update_cooldown_displays(&cooldown_after(NANOS_PER_SEC, 0)), Some(1));
    assert_eq!(update_cooldown_displays(&cooldown_after(NANOS_PER_SEC, 1)), Some(1));
    assert_eq!(update_cooldown_displays(&cooldown_after(NANOS_PER_SEC, 999_999_999)), Some(1));
    assert_eq!(update_cooldown_displays(&cooldown_after(NANOS_PER_SEC, NANOS_PER_SEC)), Some(0));
    assert_eq!(update_cooldown_displays(&cooldown_after(NANOS_PER_SEC + 1, 0)), Some(2));
    assert_eq!(update_cooldown_displays(&cooldown_after(3 * NANOS_PER_SEC, 500_000_000)), Some(3));
}

#[test]
fn cooldown_display_holds_at_its_largest_number() {
    assert_eq!(update_cooldown_displays(&cooldown_after(u64::MAX, 0)), Some(u32::MAX));
    assert_eq!(
        update_cooldown_displays(&cooldown_after(4_294_967_295 * NANOS_PER_SEC, 0)),
        Some(u32::MAX)
    );
    assert_eq!(
        update_cooldown_displays(&cooldown_after(4_294_967_294 * NANOS_PER_SEC, 0)),
        Some(4_294_967_294)
    );
}

#[test]
fn cooldown_display_is_hidden_outside_a_cooldown() {
    let east = Direction { x: 1, y: 0 };
    assert_eq!(update_cooldown_displays(&Actions::Idle), None);
    assert_eq!(
        update_cooldown_displays(&Actions::Charging {
            charge: Charge::default(),
            trigger_direction: None
        }),
        None
    );
    assert_eq!(
        update_cooldown_displays(&Actions::Executing {
            trigger_direction: east,
            pending_cooldown: Timer::from_millis(1000, TimerMode::Once),
            steps: VecDeque::new(),
        }),
        None
    );
    assert_eq!(update_cooldown_displays(&Actions::ChangePlayerForm(PlayerForm::Sword)), None);
}

#[test]
fn health_display_shows_the_lives_left_first() {
    let shown = update_health_display(&Health { owner: 0, health: 3, max_health: 5 });
    assert_eq!(
        shown,
        vec![Pip::Beating, Pip::Beating, Pip::Beating, Pip::Depleted, Pip::Depleted]
    );
    assert_eq!(update_health_display(&Health { owner: 0, health: 0, max_health: 2 }), vec![Pip::Depleted; 2]);
    assert_eq!(update_health_display(&Health { owner: 0, health: 2, max_health: 2 }), vec![Pip::Beating; 2]);
    assert_eq!(update_health_display(&Health { owner: 0, health: 0, max_health: 0 }), vec![]);
}

#[test]
fn health_display_never_shows_more_than_the_maximum() {
    let shown = update_health_display(&Health { owner: 0, health: 9, max_health: 2 });
    assert_eq!(shown, vec![Pip::Beating; 2]);
}

#[test]
fn the_player_starts_with_five_lives_a_sword_and_no_score() {
    assert_eq!(Player::default(), Player { form: PlayerForm::Sword, score: 0 });
    assert_eq!(PlayerForm::default(), PlayerForm::Sword);
    assert_eq!(Player::spawn_health(), Health { owner: 0, health: 5, max_health: 5 });
    assert_eq!(DirectionArrow, DirectionArrow);
}

#[test]
fn the_arrow_shows_a_charge_with_a_heading() {
    let east = Direction { x: 1000, y: 0 };
    let mut charge = Charge::default();
    charge.tick(500 * NANOS_PER_MILLI);
    let aimed = Actions::Charging { charge, trigger_direction: Some(east) };
    assert_eq!(update_direction_arrow(&aimed), Some(Aim { direction: east, charge }));
    assert_eq!(charge.0.elapsed() * 4, charge.0.duration());
}

#[test]
fn nothing_else_has_an_arrow() {
    let east = Direction { x: 1000, y: 0 };
    assert_eq!(
        update_direction_arrow(&Actions::Charging {
            charge: Charge::default(),
            trigger_direction: None
        }),
        None
    );
    assert_eq!(update_direction_arrow(&Actions::Idle), None);
    assert_eq!(
        update_direction_arrow(&Actions::Executing {
            trigger_direction: east,
            pending_cooldown: Timer::from_millis(1000, TimerMode::Once),
            steps: VecDeque::new(),
        }),
        None
    );
    assert_eq!(
        update_direction_arrow(&Actions::Cooldown(Timer::from_millis(1000, TimerMode::Once))),
        None
    );
}

#[test]
fn frames_advance_when_the_timer_comes_round() {
    let indices = AnimationIndices { first: 2, last: 4 };
    let mut timer = AnimationTimer(Timer::from_millis(100, TimerMode::Repeating));
    assert_eq!(animate_sprite(&indices, &mut timer, 2, 99 * NANOS_PER_MILLI), 2);
    assert_eq!(animate_sprite(&indices, &mut timer, 2, NANOS_PER_MILLI), 3);
    assert_eq!(animate_sprite(&indices, &mut timer, 3, 100 * NANOS_PER_MILLI), 4);
    assert_eq!(animate_sprite(&indices, &mut timer, 4, 100 * NANOS_PER_MILLI), 2);
    // However often the timer came round, the frame moves on by one.
    assert_eq!(animate_sprite(&indices, &mut timer, 2, 500 * NANOS_PER_MILLI), 3);
    assert_eq!(timer.0.times_finished_this_tick, 5);
}

#[test]
fn a_frame_outside_the_loop_walks_on() {
    let indices = AnimationIndices { first: 2, last: 4 };
    let mut timer = AnimationTimer(Timer::from_millis(100, TimerMode::Repeating));
    assert_eq!(animate_sprite(&indices, &mut timer, 7, 100 * NANOS_PER_MILLI), 8);
    let last = AnimationIndices { first: 0, last: usize::MAX };
    assert_eq!(animate_sprite(&last, &mut timer, usize::MAX, 100 * NANOS_PER_MILLI), 0);
}

#[test]
fn layers_notice_by_the_table() {
    let world = CollisionLayer::Default;
    let player = CollisionLayer::Player;
    let enemy = CollisionLayer::Enemy;
    let projectile = CollisionLayer::EnemyProjectile;
    for other in [world, player, enemy, projectile] {
        assert!(world.filters(other));
        assert!(!projectile.filters(other));
    }
    assert!(player.filters(world));
    assert!(!player.filters(player));
    assert!(player.filters(enemy));
    assert!(player.filters(projectile));
    assert!(enemy.filters(world));
    assert!(enemy.filters(player));
    assert!(!enemy.filters(enemy));
    assert!(!enemy.filters(projectile));
    assert_eq!(CollisionLayer::default(), world);
}
