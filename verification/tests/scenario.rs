use combat_core::actions::{character_actions, Actions, Damage, Event, Health, Movement};
use combat_core::combat::{despawn_dead, resolve_contact, Body};
use combat_core::direction::Direction;
use combat_core::enemies::{ai_think, Ai, EnemyForm};
use combat_core::game_control::{apply_intent, Intent};
use combat_core::player::{Player, PlayerForm};
use combat_core::timer::{NANOS_PER_MILLI, NANOS_PER_SEC};

fn tag(actions: &Actions) -> u8 {
    match actions {
        Actions::Idle => 0,
        Actions::Charging { .. } => 1,
        Actions::Executing { .. } => 2,
        Actions::Cooldown(_) => 3,
        Actions::ChangePlayerForm(_) => 4,
    }
}

fn may_become(before: u8, after: u8) -> bool {
    before == after
        || matches!(
            (before, after),
            (0, 1) | (0, 4) | (1, 2) | (1, 0) | (2, 3) | (3, 0) | (4, 0)
        )
}

fn next(seed: &mut u64) -> u64 {
    *seed = seed.wrapping_mul(6364136223846793005).wrapping_add(1442695040888963407);
    *seed >> 33
}

#[test]
fn charged_sword_brings_an_enemy_down_in_two_hits() {
    let tick = 16 * NANOS_PER_MILLI;
    let towards_b = Direction { x: 1000, y: 0 };

    let mut player = Some(Player::default());
    let mut a_actions = Actions::default();
    let mut a = Body {
        damage: None,
        health: Some(Health { owner: 0, health: 3, max_health: 3 }),
        ai: None,
        dying: None,
    };
    let mut b = Body {
        damage: None,
        health: Some(Health { owner: 1, health: 2, max_health: 2 }),
        ai: Some(Ai { form: EnemyForm::Melee }),
        dying: None,
    };
    assert_eq!(a_actions, Actions::Idle);

    // A holds the trigger for a second and a half, then lets go towards B.
    let hold = Intent { direction: None, triggering: true, form: None };
    apply_intent(&mut a_actions, PlayerForm::Sword, &hold, 1_500 * NANOS_PER_MILLI);
    let release = Intent { direction: Some(towards_b), triggering: false, form: None };
    apply_intent(&mut a_actions, PlayerForm::Sword, &release, tick);
    assert!(matches!(a_actions, Actions::Executing { ref steps, .. } if steps.len() == 2));

    // The first step fires on the first advance and places a zone against side 1.
    let event = character_actions(&mut a_actions, 0, tick);
    let fired = match event {
        Event::Fired(fired) => fired,
        _ => panic!("the first step did not fire at once"),
    };
    assert_eq!(fired.zone, Damage { source_owner: 0, target_owner: 1 });
    assert_eq!(fired.trigger_direction, towards_b);
    let mut zone = Body { damage: Some(fired.zone), health: None, ai: None, dying: None };

    // The zone touches A, who made it, and B.
    assert_eq!(resolve_contact(&mut zone, &mut a, &mut player), None);
    let hit = resolve_contact(&mut zone, &mut b, &mut player);
    assert_eq!(hit.map(|h| h.killed), Some(false));
    assert_eq!(b.health, Some(Health { owner: 1, health: 1, max_health: 2 }));
    assert_eq!(b.dying, None);
    assert_eq!(player, Some(Player { form: PlayerForm::Sword, score: 0 }));

    // The second step fires two tenths of a second later.
    let mut waited = 0;
    let fired = loop {
        waited += tick;
        if let Event::Fired(fired) = character_actions(&mut a_actions, 0, tick) {
            break fired;
        }
        assert!(waited < NANOS_PER_SEC);
    };
    assert_eq!(waited, 208 * NANOS_PER_MILLI);
    let mut zone = Body { damage: Some(fired.zone), health: None, ai: None, dying: None };
    let hit = resolve_contact(&mut b, &mut zone, &mut player);
    assert_eq!(hit.map(|h| (h.killed, h.scored, h.fallen)), Some((true, true, Some(EnemyForm::Melee))));
    assert_eq!(b.health, None);
    assert_eq!(b.ai, None);
    assert_eq!(player, Some(Player { form: PlayerForm::Sword, score: 1 }));
    assert_eq!(a.health, Some(Health { owner: 0, health: 3, max_health: 3 }));

    // B stays for one second, then goes.
    let mut dying = b.dying.expect("the fallen has a death timer");
    assert!(!despawn_dead(&mut dying, 999 * NANOS_PER_MILLI));
    assert!(despawn_dead(&mut dying, NANOS_PER_MILLI));

    // A recovers for one second and is idle again.
    assert_eq!(character_actions(&mut a_actions, 0, tick), Event::Quiet);
    assert!(matches!(a_actions, Actions::Cooldown(_)));
    assert_eq!(character_actions(&mut a_actions, 0, 999 * NANOS_PER_MILLI), Event::Quiet);
    assert!(matches!(a_actions, Actions::Cooldown(_)));
    assert_eq!(character_actions(&mut a_actions, 0, NANOS_PER_MILLI), Event::Quiet);
    assert_eq!(a_actions, Actions::Idle);
}

#[test]
fn an_enemy_with_one_health_falls_to_the_first_slash() {
    let mut player = Some(Player::default());
    let mut b = Body {
        damage: None,
        health: Some(Health { owner: 1, health: 1, max_health: 1 }),
        ai: Some(Ai { form: EnemyForm::Ranged }),
        dying: None,
    };
    let mut actions = Actions::default();
    let hold = Intent { direction: Some(Direction { x: 0, y: 1000 }), triggering: true, form: None };
    apply_intent(&mut actions, PlayerForm::Sword, &hold, 1_500 * NANOS_PER_MILLI);
    let release = Intent { direction: None, triggering: false, form: None };
    apply_intent(&mut actions, PlayerForm::Sword, &release, 0);
    let mut score = 0;
    for _ in 0..100 {
        if let Event::Fired(fired) = character_actions(&mut actions, 0, 16 * NANOS_PER_MILLI) {
            let mut zone = Body { damage: Some(fired.zone), health: None, ai: None, dying: None };
            if let Some(hit) = resolve_contact(&mut zone, &mut b, &mut player) {
                assert!(hit.killed);
                score += 1;
            }
        }
    }
    assert_eq!(score, 1);
    assert_eq!(player, Some(Player { form: PlayerForm::Sword, score: 1 }));
    assert_eq!(actions, Actions::Idle);
}

#[test]
fn state_machine_closure_of_the_player() {
    let mut seed = 0x5eed;
    let mut actions = Actions::default();
    let mut seen = [[false; 5]; 5];
    for _ in 0..20_000 {
        let before = tag(&actions);
        let roll = next(&mut seed);
        let direction = match roll % 3 {
            0 => None,
            1 => Some(Direction { x: 1000, y: 0 }),
            _ => Some(Direction { x: -700, y: 700 }),
        };
        let intent = Intent {
            direction,
            triggering: (roll >> 2) % 4 != 0,
            form: if (roll >> 4) % 5 == 0 { Some(PlayerForm::Sword) } else { None },
        };
        let delta = (next(&mut seed) % 700) * NANOS_PER_MILLI;
        apply_intent(&mut actions, PlayerForm::Sword, &intent, delta);
        let between = tag(&actions);
        assert!(may_become(before, between), "{} -> {}", before, between);
        seen[before as usize][between as usize] = true;
        if let Event::Fired(fired) = character_actions(&mut actions, 0, delta) {
            assert_eq!(fired.zone, Damage { source_owner: 0, target_owner: 1 });
        }
        let after = tag(&actions);
        assert!(may_become(between, after), "{} -> {}", between, after);
        seen[between as usize][after as usize] = true;
    }
    for (before, after) in [(0, 1), (0, 4), (1, 2), (1, 0), (2, 3), (3, 0), (4, 0)] {
        assert!(seen[before][after], "{} -> {} never taken", before, after);
    }
}

#[test]
fn state_machine_closure_of_an_enemy() {
    let mut seed = 0xbeef;
    let ai = Ai { form: EnemyForm::Melee };
    let mut actions = Actions::default();
    let mut movement = Movement::default();
    let mut attacks = 0;
    for _ in 0..20_000 {
        let roll = next(&mut seed);
        let to_player = match roll % 4 {
            0 => None,
            1 => Some(Direction { x: 20_000, y: 0 }),
            _ => Some(Direction { x: (roll % 15_000) as i32, y: 0 }),
        };
        let before = tag(&actions);
        ai_think(&mut movement, &mut actions, &ai, to_player);
        let between = tag(&actions);
        assert!(between == before || (before == 0 && between == 2));
        if between != before {
            attacks += 1;
        }
        let delta = (next(&mut seed) % 700) * NANOS_PER_MILLI;
        if let Event::Fired(fired) = character_actions(&mut actions, 1, delta) {
            assert_eq!(fired.zone, Damage { source_owner: 1, target_owner: 0 });
        }
        let after = tag(&actions);
        assert!(may_become(between, after));
        assert!(after != 1 && after != 4);
    }
    assert!(attacks > 100);
}
