use brawler::combat::{
    detect_combat_collisions, detect_player_enemy_collisions, handle_damage_events,
    update_attack_hitboxes, ActorKind, CombatActor, CombatTarget, EnemyContact,
};
use brawler::components::{
    AnimationIndices, DamageEvent, Direction, Health, HitFlash, HitTracking, Hitbox, HurtBox,
    Knockback, Stunned,
};
use brawler::config::PlayerStateType;
use brawler::effects::{apply_knockback, update_hit_flash, update_invulnerability, update_stun_timers};
use brawler::geometry::{aabb_collision, direction_scaled, isqrt, Vec2};
use brawler::state::PlayerState;
use brawler::timer::{Timer, TimerMode};

const PLAYER: u64 = 1;

fn actor(id: u64, kind: ActorKind, x: i32, y: i32, hp: i32) -> CombatActor {
    CombatActor {
        id,
        kind,
        position: Vec2::new(x, y),
        health: Health::new(hp),
        stunned: None,
        invulnerable: None,
        knockback: None,
        hit_flash: None,
    }
}

fn enemy_target(id: u64, x: i32, y: i32) -> CombatTarget {
    CombatTarget { id, position: Vec2::new(x, y), hurtbox: HurtBox { size: Vec2::new(80_000, 100_000) } }
}

fn punch_hitbox() -> Hitbox {
    Hitbox { offset: Vec2::new(80_000, 0), size: Vec2::new(60_000, 40_000), active: true }
}

#[test]
fn hitbox_live_in_middle_third() {
    let punch = PlayerState::transition_to(PlayerStateType::Punch);
    let indices = AnimationIndices { first: 1, last: 12 };
    let mut hb = Hitbox { offset: Vec2::zero(), size: Vec2::zero(), active: false };
    // 11 frames of range: live from frame 4 to frame 8
    for (frame, live) in [(3, false), (4, true), (8, true), (9, false)] {
        update_attack_hitboxes(&punch, frame, &indices, Direction::Left, &mut hb);
        assert_eq!(hb.active, live);
    }
    assert_eq!(hb.offset, Vec2::new(-80_000, 0));
    assert_eq!(hb.size, Vec2::new(60_000, 40_000));
    let kick = PlayerState::transition_to(PlayerStateType::JumpKick);
    update_attack_hitboxes(&kick, 8, &AnimationIndices { first: 1, last: 19 }, Direction::Right, &mut hb);
    assert_eq!(hb.size, Vec2::new(70_000, 60_000));
    assert_eq!(hb.offset, Vec2::new(80_000, 0));
    let idle = PlayerState::transition_to(PlayerStateType::Idle);
    update_attack_hitboxes(&idle, 8, &indices, Direction::Right, &mut hb);
    assert!(!hb.active);
    assert_eq!(hb.size, Vec2::new(70_000, 60_000));
}

#[test]
fn boxes_overlap_test() {
    let s = Vec2::new(20, 20);
    assert!(aabb_collision(Vec2::new(0, 0), s, Vec2::new(19, 0), s));
    assert!(!aabb_collision(Vec2::new(0, 0), s, Vec2::new(20, 0), s));
    assert!(!aabb_collision(Vec2::new(0, 0), s, Vec2::new(0, -20), s));
}

#[test]
fn integer_square_root() {
    assert_eq!(isqrt(0), 0);
    assert_eq!(isqrt(24), 4);
    assert_eq!(isqrt(25), 5);
    assert_eq!(isqrt((1u128 << 66) - 1), (1u128 << 33) - 1);
}

#[test]
fn knockback_direction_is_scaled_unit_vector() {
    let v = direction_scaled(Vec2::new(0, 0), Vec2::new(3_000, -4_000), 500_000);
    assert_eq!(v, Vec2::new(300_000, -400_000));
    assert_eq!(direction_scaled(Vec2::new(5, 5), Vec2::new(5, 5), 300_000), Vec2::zero());
}

#[test]
fn a_swing_hits_each_enemy_once() {
    let punch = PlayerState::transition_to(PlayerStateType::Punch);
    let mut tracking = HitTracking::new();
    let enemies = vec![enemy_target(10, 80_000, 0), enemy_target(11, 100_000, 10_000), enemy_target(12, 900_000, 0)];
    let pos = Vec2::new(0, 0);
    let first = detect_combat_collisions(PLAYER, pos, &punch_hitbox(), &punch, &mut tracking, &enemies);
    assert_eq!(
        first,
        vec![
            DamageEvent { attacker: PLAYER, target: 10, damage: 2 },
            DamageEvent { attacker: PLAYER, target: 11, damage: 2 },
        ]
    );
    for _ in 0..5 {
        let again = detect_combat_collisions(PLAYER, pos, &punch_hitbox(), &punch, &mut tracking, &enemies);
        assert!(again.is_empty());
    }
    let idle_box = Hitbox { active: false, ..punch_hitbox() };
    assert!(detect_combat_collisions(PLAYER, pos, &idle_box, &punch, &mut HitTracking::new(), &enemies).is_empty());
}

#[test]
fn contact_damage_skips_stunned_and_invulnerable() {
    let pos = Vec2::new(0, 0);
    let enemies = vec![
        EnemyContact { id: 10, position: Vec2::new(60_000, 79_000), stunned: false },
        EnemyContact { id: 11, position: Vec2::new(60_000, 80_000), stunned: false },
        EnemyContact { id: 12, position: Vec2::new(10_000, 0), stunned: true },
    ];
    let ev = detect_player_enemy_collisions(PLAYER, pos, false, &enemies);
    assert_eq!(ev, vec![DamageEvent { attacker: 10, target: PLAYER, damage: 1 }]);
    assert!(detect_player_enemy_collisions(PLAYER, pos, true, &enemies).is_empty());
}

#[test]
fn two_contacts_in_one_tick() {
    let pos = Vec2::new(-200_000, -100_000);
    let contacts = vec![
        EnemyContact { id: 10, position: Vec2::new(-150_000, -100_000), stunned: false },
        EnemyContact { id: 11, position: Vec2::new(-200_000, -60_000), stunned: false },
    ];
    let events = detect_player_enemy_collisions(PLAYER, pos, false, &contacts);
    assert_eq!(events.len(), 2);
    let mut actors = vec![
        actor(PLAYER, ActorKind::Player, -200_000, -100_000, 20),
        actor(10, ActorKind::Enemy, -150_000, -100_000, 6),
        actor(11, ActorKind::Enemy, -200_000, -60_000, 6),
    ];
    let out = handle_damage_events(&mut actors, &events);
    assert!(out.enemies_defeated.is_empty() && out.player_defeated.is_empty());
    let p = actors[0];
    assert_eq!(p.health.current, 18);
    assert_eq!(p.invulnerable.map(|i| i.timer), Some(Timer::new(1000, TimerMode::Once)));
    assert_eq!(p.hit_flash.map(|f| f.flash_duration_ms), Some(300));
    // the later contact, from straight above, sets the push
    assert_eq!(p.knockback, Some(Knockback { velocity: Vec2::new(0, -500_000) }));
    assert_eq!(actors[1].health.current, 6);
}

#[test]
fn enemy_hit_in_two_swings() {
    let punch = PlayerState::transition_to(PlayerStateType::Punch);
    let pos = Vec2::new(0, 0);
    let targets = vec![enemy_target(10, 80_000, 0)];
    let mut actors = vec![actor(PLAYER, ActorKind::Player, 0, 0, 20), actor(10, ActorKind::Enemy, 80_000, 0, 6)];

    let mut tracking = HitTracking::new();
    let ev = detect_combat_collisions(PLAYER, pos, &punch_hitbox(), &punch, &mut tracking, &targets);
    handle_damage_events(&mut actors, &ev);
    assert_eq!(actors[1].health.current, 4);
    assert_eq!(actors[1].stunned, Some(Stunned { timer: Timer::new(500, TimerMode::Once) }));
    assert_eq!(actors[1].knockback, Some(Knockback { velocity: Vec2::new(300_000, 0) }));

    let mut stunned = actors[1].stunned;
    for _ in 0..31 {
        update_stun_timers(&mut stunned, 16);
    }
    assert!(stunned.is_some());
    update_stun_timers(&mut stunned, 16);
    assert!(stunned.is_none());
    actors[1].stunned = stunned;

    // a new swing starts with fresh tracking
    brawler::systems::clear_hit_tracking_on_state_change(&punch, &mut tracking);
    let ev = detect_combat_collisions(PLAYER, pos, &punch_hitbox(), &punch, &mut tracking, &targets);
    handle_damage_events(&mut actors, &ev);
    assert_eq!(actors[1].health.current, 2);
}

#[test]
fn lethal_hit_defeats_without_effects() {
    let mut actors = vec![actor(PLAYER, ActorKind::Player, 0, 0, 1), actor(10, ActorKind::Enemy, 5_000, 0, 6)];
    let events = vec![
        DamageEvent { attacker: PLAYER, target: 10, damage: 6 },
        DamageEvent { attacker: 10, target: PLAYER, damage: 1 },
        DamageEvent { attacker: PLAYER, target: 99, damage: 3 },
    ];
    let out = handle_damage_events(&mut actors, &events);
    assert_eq!(out.enemies_defeated.len(), 1);
    assert_eq!(out.enemies_defeated[0].enemy, 10);
    assert_eq!(out.player_defeated.len(), 1);
    assert_eq!(actors[1].health.current, 0);
    assert!(actors[1].stunned.is_none() && actors[1].knockback.is_none());
    assert_eq!(actors[0].health.current, 0);
    assert!(actors[0].invulnerable.is_none());
}

#[test]
fn missing_attacker_gives_no_push() {
    let mut actors = vec![actor(10, ActorKind::Enemy, 5_000, 0, 6)];
    handle_damage_events(&mut actors, &vec![DamageEvent { attacker: 77, target: 10, damage: 2 }]);
    assert_eq!(actors[0].knockback, Some(Knockback { velocity: Vec2::zero() }));
}

#[test]
fn knockback_decays_by_a_tenth_each_tick() {
    let mut pos = Vec2::new(0, -100_000);
    let mut kb = Some(Knockback { velocity: Vec2::new(300_000, 300_000) });
    apply_knockback(&mut pos, &mut kb, Some(-100_000), 100);
    // grounded: only pushed sideways
    assert_eq!(pos, Vec2::new(30_000, -100_000));
    assert_eq!(kb, Some(Knockback { velocity: Vec2::new(270_000, 270_000) }));
    let mut airborne = Vec2::new(0, 0);
    apply_knockback(&mut airborne, &mut kb, None, 100);
    assert_eq!(airborne, Vec2::new(27_000, 27_000));
    assert_eq!(kb, Some(Knockback { velocity: Vec2::new(243_000, 243_000) }));
}

#[test]
fn knockback_removed_once_below_rest_speed() {
    let v0 = 300_000.0_f64;
    let mut kb = Some(Knockback { velocity: Vec2::new(300_000, 0) });
    let mut pos = Vec2::zero();
    let mut n = 0;
    while kb.is_some() {
        apply_knockback(&mut pos, &mut kb, None, 16);
        n += 1;
        if let Some(k) = kb {
            let ideal = v0 * 0.9_f64.powi(n);
            assert!((k.velocity.x as f64 - ideal).abs() < 10.0);
            assert!(k.velocity.x >= 10_000);
        }
    }
    let first_below = (1..).find(|k| v0 * 0.9_f64.powi(*k) < 10_000.0).unwrap();
    assert_eq!(n, first_below);
    assert_eq!(n, 33);
}

#[test]
fn invulnerability_and_flash_wear_off() {
    let mut inv = Some(brawler::components::Invulnerable { timer: Timer::new(1000, TimerMode::Once) });
    update_invulnerability(&mut inv, 999);
    assert!(inv.is_some());
    update_invulnerability(&mut inv, 1);
    assert!(inv.is_none());

    let mut flash = Some(HitFlash { timer: Timer::new(300, TimerMode::Once), flash_duration_ms: 300 });
    assert_eq!(update_hit_flash(&mut flash, 75), 750);
    assert_eq!(update_hit_flash(&mut flash, 75), 500);
    assert_eq!(update_hit_flash(&mut flash, 200), 0);
    assert!(flash.is_none());
    assert_eq!(update_hit_flash(&mut flash, 10), 0);
}

#[test]
fn no_enemies_no_events() {
    let punch = PlayerState::transition_to(PlayerStateType::Punch);
    let mut tracking = HitTracking::new();
    assert!(detect_combat_collisions(PLAYER, Vec2::zero(), &punch_hitbox(), &punch, &mut tracking, &vec![]).is_empty());
    assert!(detect_player_enemy_collisions(PLAYER, Vec2::zero(), false, &vec![]).is_empty());
    let mut actors = vec![actor(PLAYER, ActorKind::Player, 0, 0, 20)];
    let out = handle_damage_events(&mut actors, &vec![]);
    assert!(out.enemies_defeated.is_empty() && out.player_defeated.is_empty());
    assert_eq!(actors[0].health.current, 20);
}

#[test]
fn absent_effects_stay_absent() {
    let mut s: Option<Stunned> = None;
    update_stun_timers(&mut s, 16);
    assert!(s.is_none());
    let mut kb: Option<Knockback> = None;
    let mut pos = Vec2::new(3, 4);
    apply_knockback(&mut pos, &mut kb, None, 16);
    assert_eq!(pos, Vec2::new(3, 4));
}
