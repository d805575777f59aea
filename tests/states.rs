use brawler::config::{InputContext, PlayerStateType, StateTransition, UpdateContext};
use brawler::state::{PlayerState, StateLogic};
use brawler::states::{FallStateData, IdleStateData, JumpStateData, PunchStateData};

const ALL: [PlayerStateType; 16] = [
    PlayerStateType::Idle,
    PlayerStateType::IdleToWalk,
    PlayerStateType::IdleToRun,
    PlayerStateType::Walk,
    PlayerStateType::Run,
    PlayerStateType::Jump,
    PlayerStateType::Fall,
    PlayerStateType::Land,
    PlayerStateType::Punch,
    PlayerStateType::PunchCombo,
    PlayerStateType::Kick,
    PlayerStateType::KickCombo,
    PlayerStateType::PunchKickCombo,
    PlayerStateType::JumpPunch,
    PlayerStateType::JumpKick,
    PlayerStateType::Defeat,
];

fn tag_of(s: &PlayerState) -> PlayerStateType {
    ALL.iter()
        .copied()
        .find(|t| PlayerState::transition_to(*t) == *s)
        .expect("every state has a tag")
}

#[test]
fn each_state_is_exactly_one_variant() {
    for (i, a) in ALL.iter().enumerate() {
        for (j, b) in ALL.iter().enumerate() {
            let same = PlayerState::transition_to(*a) == PlayerState::transition_to(*b);
            assert_eq!(same, i == j);
        }
        assert_eq!(tag_of(&PlayerState::transition_to(*a)), *a);
    }
}

#[test]
fn damage_and_attack_flags_follow_the_table() {
    let expect = [0, 0, 0, 0, 0, 0, 0, 0, 2, 2, 3, 3, 3, 6, 6, 0];
    for (t, d) in ALL.iter().zip(expect.iter()) {
        let s = PlayerState::transition_to(*t);
        assert_eq!(s.get_damage(), *d);
        assert_eq!(s.is_attacking(), *d > 0);
    }
}

#[test]
fn locking_states() {
    let locked = [
        PlayerStateType::Land,
        PlayerStateType::Punch,
        PlayerStateType::PunchCombo,
        PlayerStateType::Kick,
        PlayerStateType::KickCombo,
        PlayerStateType::PunchKickCombo,
        PlayerStateType::Defeat,
    ];
    for t in ALL.iter() {
        assert_eq!(PlayerState::transition_to(*t).locks_input(), locked.contains(t));
    }
}

#[test]
fn idle_priorities() {
    let idle = IdleStateData;
    let mut i = InputContext { up_arrow: true, down_arrow: true, space: true, left: true, ..Default::default() };
    assert_eq!(idle.handle_input(&i), StateTransition::To(PlayerStateType::Punch));
    i.up_arrow = false;
    assert_eq!(idle.handle_input(&i), StateTransition::To(PlayerStateType::Kick));
    i.down_arrow = false;
    assert_eq!(idle.handle_input(&i), StateTransition::To(PlayerStateType::Jump));
    i.space = false;
    assert_eq!(idle.handle_input(&i), StateTransition::To(PlayerStateType::IdleToWalk));
    i.shift = true;
    assert_eq!(idle.handle_input(&i), StateTransition::To(PlayerStateType::IdleToRun));
    assert_eq!(idle.handle_input(&InputContext::default()), StateTransition::Stay);
}

#[test]
fn walk_without_keys_returns_to_idle() {
    let walk = PlayerState::transition_to(PlayerStateType::Walk);
    assert_eq!(walk.handle_input(&InputContext::default()), StateTransition::To(PlayerStateType::Idle));
    let held = InputContext { right: true, ..Default::default() };
    assert_eq!(walk.handle_input(&held), StateTransition::Stay);
}

#[test]
fn punch_combo_only_in_second_half() {
    let punch = PunchStateData;
    let early = InputContext { up_arrow: true, current_frame: 5, total_frames: 13, ..Default::default() };
    assert_eq!(punch.handle_input(&early), StateTransition::Stay);
    let late = InputContext { current_frame: 6, ..early };
    assert_eq!(punch.handle_input(&late), StateTransition::QueueCombo(PlayerStateType::PunchCombo));
}

#[test]
fn aerial_attack_needs_unused_guard() {
    let up = InputContext { up_arrow: true, ..Default::default() };
    assert_eq!(JumpStateData.handle_input(&up), StateTransition::To(PlayerStateType::JumpPunch));
    let used = InputContext { has_used_aerial_attack: true, ..up };
    assert_eq!(JumpStateData.handle_input(&used), StateTransition::Stay);
    let down = InputContext { down_arrow: true, ..Default::default() };
    assert_eq!(FallStateData.handle_input(&down), StateTransition::To(PlayerStateType::JumpKick));
}

#[test]
fn automatic_transitions() {
    let done = UpdateContext { animation_finished: true, is_at_ground: false, velocity_y: 5 };
    let s = |t| PlayerState::transition_to(t);
    assert_eq!(s(PlayerStateType::IdleToWalk).update(&done), StateTransition::To(PlayerStateType::Walk));
    assert_eq!(s(PlayerStateType::IdleToRun).update(&done), StateTransition::To(PlayerStateType::Run));
    assert_eq!(s(PlayerStateType::JumpPunch).update(&done), StateTransition::To(PlayerStateType::Fall));
    let grounded = UpdateContext { is_at_ground: true, ..done };
    assert_eq!(s(PlayerStateType::JumpKick).update(&grounded), StateTransition::To(PlayerStateType::Land));
    assert_eq!(s(PlayerStateType::Fall).update(&grounded), StateTransition::To(PlayerStateType::Land));
    assert_eq!(s(PlayerStateType::Jump).update(&done), StateTransition::Stay);
    let peak = UpdateContext { velocity_y: 0, ..done };
    assert_eq!(s(PlayerStateType::Jump).update(&peak), StateTransition::To(PlayerStateType::Fall));
    assert_eq!(s(PlayerStateType::Defeat).update(&grounded), StateTransition::Stay);
}

#[test]
fn animation_and_physics_configs() {
    let idle = PlayerState::transition_to(PlayerStateType::Idle).get_animation_config();
    assert_eq!(idle.sprite_path, "player/idle-sheet.png");
    assert_eq!((idle.first_frame, idle.last_frame, idle.frame_duration_ms), (1, 23, 120));
    let run = PlayerState::transition_to(PlayerStateType::Run).get_physics_config();
    assert_eq!(run.ground_speed, 600_000);
    let jump = PlayerState::transition_to(PlayerStateType::Jump).get_physics_config();
    assert!(jump.apply_gravity && jump.air_control && !jump.locks_movement);
    let jp = PlayerState::transition_to(PlayerStateType::JumpPunch).get_physics_config();
    assert!(!jp.apply_gravity && jp.air_control);
}
