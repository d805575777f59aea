use brawler::components::{
    AnimationIndices, AnimationTimer, ComboWindow, Direction, Health, HitFlash, Invulnerable,
    JumpPhysics, Keys, Knockback,
};
use brawler::config::PlayerStateType;
use brawler::game::{
    animate_sprite, count_down, handle_enemy_defeat, handle_player_defeat, handle_restart,
    end_game, move_enemies, plan_enemy_spawn, restart_game, spawn_enemy, time_remaining_secs,
    GameState,
};
use brawler::geometry::Vec2;
use brawler::state::PlayerState;
use brawler::timer::{Timer, TimerMode};

#[test]
fn clock_runs_out_after_two_minutes() {
    let mut game = GameState::new();
    assert_eq!(time_remaining_secs(&game), 120);
    assert!(!count_down(&mut game, 1));
    assert_eq!(time_remaining_secs(&game), 120);
    assert!(!count_down(&mut game, 999));
    assert_eq!(time_remaining_secs(&game), 119);
    assert!(!count_down(&mut game, 118_999));
    assert!(!game.game_over);
    assert!(count_down(&mut game, 1));
    assert!(game.game_over);
    assert_eq!(time_remaining_secs(&game), 0);
    assert!(!count_down(&mut game, 1));
}

#[test]
fn spawns_are_spaced_and_capped() {
    let mut game = GameState::new();
    assert_eq!(plan_enemy_spawn(&mut game, true), None);
    game.timer.tick(2000);
    let s = plan_enemy_spawn(&mut game, true).unwrap();
    assert_eq!(s.position, Vec2::new(-1_600_000, 0));
    assert_eq!(s.facing, Direction::Right);
    assert_eq!(s.health, Health::new(6));
    assert_eq!((game.n_enemies, game.last_spawn_ms), (1, 2000));
    assert_eq!(plan_enemy_spawn(&mut game, false), None);
    game.timer.tick(2000);
    let s = plan_enemy_spawn(&mut game, false).unwrap();
    assert_eq!((s.position.x, s.facing), (1_600_000, Direction::Left));
    game.n_enemies = 6;
    game.timer.tick(5000);
    assert_eq!(plan_enemy_spawn(&mut game, false), None);
}

#[test]
fn random_spawn_picks_an_edge() {
    let mut game = GameState::new();
    assert!(spawn_enemy(&mut game).is_none());
    game.timer.tick(2500);
    let s = spawn_enemy(&mut game).unwrap();
    assert_eq!(s.position.x.abs(), 1_600_000);
    assert_eq!(s.facing == Direction::Right, s.position.x < 0);
    assert_eq!(game.n_enemies, 1);
    assert_eq!(game.last_spawn_ms, 2500);
}

#[test]
fn defeats_score_and_end_the_game() {
    let mut game = GameState::new();
    game.n_enemies = 2;
    handle_enemy_defeat(&mut game);
    assert_eq!((game.n_enemies, game.score), (1, 10));
    game.n_enemies = 0;
    handle_enemy_defeat(&mut game);
    assert_eq!((game.n_enemies, game.score), (0, 20));
    let mut state = PlayerState::transition_to(PlayerStateType::Run);
    handle_player_defeat(&mut state, &mut game);
    assert_eq!(state, PlayerState::transition_to(PlayerStateType::Defeat));
    assert!(game.game_over);
}

#[test]
fn restart_resets_the_player_and_game() {
    let mut game = GameState::new();
    game.score = 50;
    game.timer.tick(30_000);
    let mut health = Health { current: -1, max: 20 };
    let mut state = PlayerState::transition_to(PlayerStateType::Defeat);
    let mut pos = Vec2::new(5, 5);
    let mut jump = JumpPhysics { velocity_y: -4, has_used_aerial_attack: true, ground_y: 3, jump_force: 9 };
    let mut combo = ComboWindow::new();
    combo.queued_combo = Some(PlayerStateType::KickCombo);
    let mut inv = Some(Invulnerable { timer: Timer::new(1000, TimerMode::Once) });
    let mut kb = Some(Knockback { velocity: Vec2::new(1, 1) });
    let mut flash = Some(HitFlash { timer: Timer::new(300, TimerMode::Once), flash_duration_ms: 300 });
    let r = Keys { restart: true, ..Default::default() };
    // not over yet: nothing happens
    assert!(!handle_restart(&r, &mut game, &mut health, &mut state, &mut pos, &mut jump, &mut combo, &mut inv, &mut kb, &mut flash));
    assert_eq!(game.score, 50);
    game.game_over = true;
    assert!(handle_restart(&r, &mut game, &mut health, &mut state, &mut pos, &mut jump, &mut combo, &mut inv, &mut kb, &mut flash));
    assert_eq!(game, GameState::new());
    assert_eq!(health.current, 20);
    assert_eq!(state, PlayerState::transition_to(PlayerStateType::Idle));
    assert_eq!(pos, Vec2::new(-200_000, -200_000));
    assert_eq!(jump, JumpPhysics::new());
    assert_eq!(combo, ComboWindow::new());
    assert!(inv.is_none() && kb.is_none() && flash.is_none());
}

#[test]
fn enemy_turns_and_closes_in() {
    let mut pos = Vec2::new(0, 0);
    let mut facing = Direction::Left;
    move_enemies(100, Vec2::new(151_000, 20_000), false, &mut pos, &mut facing);
    assert_eq!(facing, Direction::Right);
    assert_eq!(pos, Vec2::new(15_000, 5_000));
    // inside the turning distance the enemy keeps its heading
    move_enemies(100, Vec2::new(0, 5_000), false, &mut pos, &mut facing);
    assert_eq!(facing, Direction::Right);
    assert_eq!(pos, Vec2::new(30_000, 5_000));
    move_enemies(100, Vec2::new(-500_000, -500_000), true, &mut pos, &mut facing);
    assert_eq!(pos, Vec2::new(30_000, 5_000));
}

#[test]
fn animation_loops_and_defeat_holds_last_frame() {
    let indices = AnimationIndices { first: 1, last: 3 };
    let mut timer = AnimationTimer(Timer::new(100, TimerMode::Repeating));
    let mut frame = 1;
    animate_sprite(50, &mut timer, &mut frame, &indices, false);
    assert_eq!(frame, 1);
    animate_sprite(50, &mut timer, &mut frame, &indices, false);
    assert_eq!(frame, 2);
    animate_sprite(100, &mut timer, &mut frame, &indices, false);
    animate_sprite(100, &mut timer, &mut frame, &indices, false);
    assert_eq!(frame, 1);
    frame = 3;
    animate_sprite(100, &mut timer, &mut frame, &indices, true);
    assert_eq!(frame, 3);
}

#[test]
fn game_restarts_and_ends_without_a_player() {
    let mut game = GameState::new();
    game.score = 30;
    let r = Keys { restart: true, ..Default::default() };
    assert!(!restart_game(&r, &mut game));
    assert_eq!(game.score, 30);
    end_game(&mut game);
    assert!(game.game_over);
    assert!(!restart_game(&Keys::default(), &mut game));
    assert!(restart_game(&r, &mut game));
    assert_eq!(game, GameState::new());
}
