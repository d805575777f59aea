use brawler::components::{
    AnimationIndices, AnimationTimer, ComboWindow, Direction, HitTracking, JumpPhysics, Keys,
};
use brawler::config::PlayerStateType;
use brawler::geometry::{advance, Vec2};
use brawler::state::PlayerState;
use brawler::systems::{
    clear_hit_tracking_on_state_change, initialize_jump_physics, player_input_system,
    player_physics_system, player_sprite_update_system, player_state_update_system,
};
use brawler::timer::{Timer, TimerMode};

const DT: u32 = 16;

fn finished_timer(ms: u32) -> AnimationTimer {
    let mut t = Timer::new(ms, TimerMode::Repeating);
    t.tick(ms as u64);
    AnimationTimer(t)
}

fn idle_timer() -> AnimationTimer {
    AnimationTimer(Timer::new(100, TimerMode::Repeating))
}

#[test]
fn idle_up_arrow_starts_punch() {
    let mut state = PlayerState::transition_to(PlayerStateType::Idle);
    let mut combo = ComboWindow::new();
    let jump = JumpPhysics::new();
    let keys = Keys { up: true, ..Default::default() };
    let indices = AnimationIndices { first: 1, last: 23 };
    let replaced = player_input_system(&keys, DT, false, &mut state, &jump, &mut combo, 1, &indices);
    assert!(replaced);
    assert_eq!(state, PlayerState::transition_to(PlayerStateType::Punch));
    assert_eq!(state.get_damage(), 2);
    assert!(state.get_physics_config().locks_movement);
    assert_eq!(combo.last_attack, Some(PlayerStateType::Punch));
    assert_eq!(combo.timer.elapsed_ms, 0);
}

#[test]
fn queued_combo_overrides_punch_finish() {
    let mut state = PlayerState::transition_to(PlayerStateType::Punch);
    let mut combo = ComboWindow::new();
    let jump = JumpPhysics::new();
    let indices = AnimationIndices { first: 1, last: 12 };
    let keys = Keys { up: true, ..Default::default() };
    let replaced = player_input_system(&keys, DT, false, &mut state, &jump, &mut combo, 7, &indices);
    assert!(!replaced);
    assert_eq!(combo.queued_combo, Some(PlayerStateType::PunchCombo));
    assert_eq!(state, PlayerState::transition_to(PlayerStateType::Punch));

    let timer = finished_timer(30);
    let replaced = player_state_update_system(
        &mut state,
        &timer,
        &indices,
        12,
        &mut combo,
        &jump,
        jump.ground_y,
    );
    assert!(replaced);
    assert_eq!(state, PlayerState::transition_to(PlayerStateType::PunchCombo));
    assert_eq!(combo.queued_combo, None);
    assert_eq!(combo.last_attack, Some(PlayerStateType::PunchCombo));
}

#[test]
fn punch_without_combo_returns_to_idle() {
    let mut state = PlayerState::transition_to(PlayerStateType::Punch);
    let mut combo = ComboWindow::new();
    let jump = JumpPhysics::new();
    let indices = AnimationIndices { first: 1, last: 12 };
    let timer = finished_timer(30);
    player_state_update_system(&mut state, &timer, &indices, 12, &mut combo, &jump, jump.ground_y);
    assert_eq!(state, PlayerState::transition_to(PlayerStateType::Idle));
}

#[test]
fn combo_key_ignored_once_window_closed() {
    let mut state = PlayerState::transition_to(PlayerStateType::Punch);
    let mut combo = ComboWindow::new();
    let jump = JumpPhysics::new();
    let indices = AnimationIndices { first: 1, last: 12 };
    let keys = Keys { up: true, ..Default::default() };
    player_input_system(&keys, 600, false, &mut state, &jump, &mut combo, 7, &indices);
    assert_eq!(combo.queued_combo, None);
}

#[test]
fn locked_state_ignores_movement_keys() {
    let mut state = PlayerState::transition_to(PlayerStateType::Kick);
    let mut combo = ComboWindow::new();
    let jump = JumpPhysics::new();
    let indices = AnimationIndices { first: 1, last: 20 };
    let keys = Keys { space: true, left: true, ..Default::default() };
    assert!(!player_input_system(&keys, DT, false, &mut state, &jump, &mut combo, 15, &indices));
    assert_eq!(state, PlayerState::transition_to(PlayerStateType::Kick));
}

#[test]
fn game_over_freezes_input() {
    let mut state = PlayerState::transition_to(PlayerStateType::Idle);
    let mut combo = ComboWindow::new();
    let jump = JumpPhysics::new();
    let indices = AnimationIndices { first: 1, last: 23 };
    let keys = Keys { up: true, ..Default::default() };
    assert!(!player_input_system(&keys, DT, true, &mut state, &jump, &mut combo, 1, &indices));
    assert_eq!(state, PlayerState::transition_to(PlayerStateType::Idle));
    assert_eq!(combo.timer.elapsed_ms, 0);
}

#[test]
fn jump_rises_then_falls() {
    let state = PlayerState::transition_to(PlayerStateType::Jump);
    let mut jump = JumpPhysics::new();
    let mut pos = Vec2::new(0, -100_000);
    initialize_jump_physics(&state, pos.y, &mut jump);
    assert_eq!(jump.velocity_y, 1_000_000);
    assert_eq!(jump.ground_y, -100_000);
    assert!(!jump.has_used_aerial_attack);

    let mut facing = Direction::Neutral;
    let keys = Keys::default();
    player_physics_system(DT, &keys, &state, &mut pos, &mut jump, &mut facing);
    // 1 800 000 mpx/s^2 over 16 ms, then 16 ms of travel at the new speed
    assert_eq!(jump.velocity_y, 1_000_000 - 28_800);
    assert_eq!(pos.y, -100_000 + 15_539);

    let mut ticks = 1;
    while jump.velocity_y > 0 {
        player_physics_system(DT, &keys, &state, &mut pos, &mut jump, &mut facing);
        ticks += 1;
    }
    assert_eq!(ticks, 35);
    assert!(jump.velocity_y < 0);
    let mut s = state;
    let mut combo = ComboWindow::new();
    let indices = AnimationIndices { first: 1, last: 26 };
    assert!(player_state_update_system(&mut s, &idle_timer(), &indices, 3, &mut combo, &jump, pos.y));
    assert_eq!(s, PlayerState::transition_to(PlayerStateType::Fall));
}

#[test]
fn falling_player_stops_on_the_ground() {
    let state = PlayerState::transition_to(PlayerStateType::Fall);
    let mut jump = JumpPhysics { velocity_y: -2_000_000, ..JumpPhysics::new() };
    let mut pos = Vec2::new(0, -90_000);
    let mut facing = Direction::Neutral;
    player_physics_system(DT, &Keys::default(), &state, &mut pos, &mut jump, &mut facing);
    assert_eq!(pos.y, -100_000);
    assert_eq!(jump.velocity_y, 0);
}

#[test]
fn walking_and_air_control_move_sideways() {
    let walk = PlayerState::transition_to(PlayerStateType::Walk);
    let mut jump = JumpPhysics::new();
    let mut pos = Vec2::new(0, -100_000);
    let mut facing = Direction::Neutral;
    let left = Keys { left: true, right: true, ..Default::default() };
    player_physics_system(100, &left, &walk, &mut pos, &mut jump, &mut facing);
    assert_eq!(pos.x, -20_000);
    assert_eq!(facing, Direction::Left);

    let kick = PlayerState::transition_to(PlayerStateType::JumpKick);
    let right = Keys { right: true, ..Default::default() };
    pos = Vec2::new(0, 0);
    player_physics_system(100, &right, &kick, &mut pos, &mut jump, &mut facing);
    assert_eq!(pos, Vec2::new(25_000, 0));
    assert_eq!(facing, Direction::Right);
}

#[test]
fn one_aerial_attack_per_jump() {
    let mut state = PlayerState::transition_to(PlayerStateType::Idle);
    let mut combo = ComboWindow::new();
    let mut jump = JumpPhysics::new();
    let indices = AnimationIndices { first: 1, last: 26 };
    let space = Keys { space: true, ..Default::default() };
    assert!(player_input_system(&space, DT, false, &mut state, &jump, &mut combo, 1, &indices));
    initialize_jump_physics(&state, -100_000, &mut jump);
    let up = Keys { up: true, ..Default::default() };
    assert!(player_input_system(&up, DT, false, &mut state, &jump, &mut combo, 1, &indices));
    assert_eq!(state, PlayerState::transition_to(PlayerStateType::JumpPunch));
    initialize_jump_physics(&state, 0, &mut jump);
    assert!(jump.has_used_aerial_attack);
    // the aerial attack ends in the air
    let timer = finished_timer(20);
    let punch_indices = AnimationIndices { first: 1, last: 17 };
    player_state_update_system(&mut state, &timer, &punch_indices, 17, &mut combo, &jump, 0);
    assert_eq!(state, PlayerState::transition_to(PlayerStateType::Fall));
    initialize_jump_physics(&state, 0, &mut jump);
    assert!(jump.has_used_aerial_attack);
    let down = Keys { down: true, ..Default::default() };
    assert!(!player_input_system(&down, DT, false, &mut state, &jump, &mut combo, 1, &indices));
    assert_eq!(state, PlayerState::transition_to(PlayerStateType::Fall));
}

#[test]
fn defeat_ignores_input_and_updates() {
    let mut state = PlayerState::transition_to(PlayerStateType::Defeat);
    let mut combo = ComboWindow::new();
    let jump = JumpPhysics::new();
    let indices = AnimationIndices { first: 1, last: 20 };
    let all = Keys { left: true, right: true, shift: true, space: true, up: true, down: true, restart: true };
    for frame in 1..=20 {
        player_input_system(&all, DT, false, &mut state, &jump, &mut combo, frame, &indices);
        player_state_update_system(&mut state, &finished_timer(100), &indices, frame, &mut combo, &jump, -500_000);
        assert_eq!(state, PlayerState::transition_to(PlayerStateType::Defeat));
    }
}

#[test]
fn entering_an_attack_clears_hit_tracking() {
    let mut tracking = HitTracking::new();
    tracking.hit_enemies.insert(7);
    clear_hit_tracking_on_state_change(&PlayerState::transition_to(PlayerStateType::Walk), &mut tracking);
    assert!(tracking.hit_enemies.contains(&7));
    clear_hit_tracking_on_state_change(&PlayerState::transition_to(PlayerStateType::Kick), &mut tracking);
    assert!(tracking.hit_enemies.is_empty());
}

#[test]
fn sprite_update_points_at_new_sheet() {
    let state = PlayerState::transition_to(PlayerStateType::Kick);
    let mut frame = 9;
    let mut indices = AnimationIndices { first: 1, last: 23 };
    let mut timer = finished_timer(120);
    let anim = player_sprite_update_system(&state, &mut frame, &mut indices, &mut timer);
    assert_eq!(anim.sprite_path, "player/kick-sheet.png");
    assert_eq!(frame, 1);
    assert_eq!(indices, AnimationIndices { first: 1, last: 20 });
    assert_eq!(timer.0.duration_ms, 20);
    assert_eq!(timer.0.elapsed_ms, 0);
    assert!(!timer.0.just_finished());
}

#[test]
fn travel_rounds_toward_zero_and_saturates() {
    assert_eq!(advance(0, -1999, 1), -1);
    assert_eq!(advance(0, 1999, 1), 1);
    assert_eq!(advance(i32::MAX - 5, 1_000_000, 1000), i32::MAX);
    assert_eq!(advance(i32::MIN + 5, i64::MIN, u32::MAX), i32::MIN);
}

#[test]
fn timer_once_and_repeating() {
    let mut once = Timer::new(100, TimerMode::Once);
    once.tick(60);
    assert!(!once.is_finished());
    once.tick(60);
    assert!(once.is_finished() && once.just_finished());
    assert_eq!(once.elapsed_ms, 100);
    once.tick(60);
    assert!(once.is_finished() && !once.just_finished());
    let mut rep = Timer::new(100, TimerMode::Repeating);
    rep.tick(250);
    assert_eq!((rep.elapsed_ms, rep.times_finished_this_tick), (50, 2));
    rep.tick(10);
    assert!(!rep.is_finished() && !rep.just_finished());
    rep.reset();
    assert_eq!(rep.elapsed_ms, 0);
}

#[test]
fn largest_frame_range_still_takes_input() {
    let mut state = PlayerState::transition_to(PlayerStateType::Kick);
    let mut combo = ComboWindow::new();
    let jump = JumpPhysics::new();
    let indices = AnimationIndices { first: 1, last: usize::MAX };
    let down = Keys { down: true, ..Default::default() };
    player_input_system(&down, DT, false, &mut state, &jump, &mut combo, usize::MAX / 2 + 1, &indices);
    assert_eq!(combo.queued_combo, Some(PlayerStateType::KickCombo));
}

#[test]
fn repeating_timer_counts_every_period() {
    let mut rep = Timer::new(1, TimerMode::Repeating);
    rep.tick(5);
    assert_eq!((rep.elapsed_ms, rep.times_finished_this_tick), (0, 5));
    let mut zero = Timer::new(0, TimerMode::Repeating);
    zero.tick(3);
    assert_eq!((zero.elapsed_ms, zero.finished, zero.times_finished_this_tick), (0, true, u32::MAX));
}
