use crate::config::{
    AnimationConfig, InputContext, PhysicsConfig, PlayerStateType, StateTransition, UpdateContext,
    RUN_SPEED, RUN_START_SPEED, WALK_SPEED,
};
use crate::state::StateLogic;
use vstd::prelude::*;

verus! {

/// Winding up from standing to walking.
#[derive(Clone, Copy, Debug, Default, PartialEq, Eq, Structural)]
pub struct IdleToWalkStateData;

impl StateLogic for IdleToWalkStateData {
    open spec fn kind(&self) -> PlayerStateType {
        PlayerStateType::IdleToWalk
    }

    fn handle_input(&self, input: &InputContext) -> (r: StateTransition) {
        if input.up_arrow {
            return StateTransition::To(PlayerStateType::Punch);
        }
        if input.down_arrow {
            return StateTransition::To(PlayerStateType::Kick);
        }
        if input.space {
            return StateTransition::To(PlayerStateType::Jump);
        }
        if !input.left && !input.right {
            return StateTransition::To(PlayerStateType::Idle);
        }
        StateTransition::Stay
    }

    fn update(&self, ctx: &UpdateContext) -> (r: StateTransition) {
        if ctx.animation_finished {
            return StateTransition::To(PlayerStateType::Walk);
        }
        StateTransition::Stay
    }

    fn get_animation_config(&self) -> (r: AnimationConfig) {
        AnimationConfig {
            sprite_path: "player/idle-to-walk-sheet.png",
            first_frame: 1,
            last_frame: 6,
            frame_duration_ms: 60,
        }
    }

    fn get_physics_config(&self) -> (r: PhysicsConfig) {
        PhysicsConfig {
            ground_speed: WALK_SPEED,
            air_control: false,
            apply_gravity: false,
            locks_movement: false,
        }
    }

    fn is_attacking(&self) -> (r: bool) {
        false
    }

    fn get_damage(&self) -> (r: i32) {
        0
    }
}

/// Winding up from standing to running.
#[derive(Clone, Copy, Debug, Default, PartialEq, Eq, Structural)]
pub struct IdleToRunStateData;

impl StateLogic for IdleToRunStateData {
    open spec fn kind(&self) -> PlayerStateType {
        PlayerStateType::IdleToRun
    }

    fn handle_input(&self, input: &InputContext) -> (r: StateTransition) {
        if input.up_arrow {
            return StateTransition::To(PlayerStateType::Punch);
        }
        if input.down_arrow {
            return StateTransition::To(PlayerStateType::Kick);
        }
        if input.space {
            return StateTransition::To(PlayerStateType::Jump);
        }
        if !input.left && !input.right {
            return StateTransition::To(PlayerStateType::Idle);
        }
        StateTransition::Stay
    }

    fn update(&self, ctx: &UpdateContext) -> (r: StateTransition) {
        if ctx.animation_finished {
            return StateTransition::To(PlayerStateType::Run);
        }
        StateTransition::Stay
    }

    fn get_animation_config(&self) -> (r: AnimationConfig) {
        AnimationConfig {
            sprite_path: "player/idle-to-run-sheet.png",
            first_frame: 1,
            last_frame: 7,
            frame_duration_ms: 60,
        }
    }

    fn get_physics_config(&self) -> (r: PhysicsConfig) {
        PhysicsConfig {
            ground_speed: RUN_START_SPEED,
            air_control: false,
            apply_gravity: false,
            locks_movement: false,
        }
    }

    fn is_attacking(&self) -> (r: bool) {
        false
    }

    fn get_damage(&self) -> (r: i32) {
        0
    }
}

/// Walking.
#[derive(Clone, Copy, Debug, Default, PartialEq, Eq, Structural)]
pub struct WalkStateData;

impl StateLogic for WalkStateData {
    open spec fn kind(&self) -> PlayerStateType {
        PlayerStateType::Walk
    }

    fn handle_input(&self, input: &InputContext) -> (r: StateTransition) {
        if input.up_arrow {
            return StateTransition::To(PlayerStateType::Punch);
        }
        if input.down_arrow {
            return StateTransition::To(PlayerStateType::Kick);
        }
        if input.space {
            return StateTransition::To(PlayerStateType::Jump);
        }
        if !input.left && !input.right {
            return StateTransition::To(PlayerStateType::Idle);
        }
        StateTransition::Stay
    }

    fn update(&self, _ctx: &UpdateContext) -> (r: StateTransition) {
        StateTransition::Stay
    }

    fn get_animation_config(&self) -> (r: AnimationConfig) {
        AnimationConfig {
            sprite_path: "player/walk-sheet.png",
            first_frame: 1,
            last_frame: 11,
            frame_duration_ms: 90,
        }
    }

    fn get_physics_config(&self) -> (r: PhysicsConfig) {
        PhysicsConfig {
            ground_speed: WALK_SPEED,
            air_control: false,
            apply_gravity: false,
            locks_movement: false,
        }
    }

    fn is_attacking(&self) -> (r: bool) {
        false
    }

    fn get_damage(&self) -> (r: i32) {
        0
    }
}

/// Running.
#[derive(Clone, Copy, Debug, Default, PartialEq, Eq, Structural)]
pub struct RunStateData;

impl StateLogic for RunStateData {
    open spec fn kind(&self) -> PlayerStateType {
        PlayerStateType::Run
    }

    fn handle_input(&self, input: &InputContext) -> (r: StateTransition) {
        if input.up_arrow {
            return StateTransition::To(PlayerStateType::Punch);
        }
        if input.down_arrow {
            return StateTransition::To(PlayerStateType::Kick);
        }
        if input.space {
            return StateTransition::To(PlayerStateType::Jump);
        }
        if !input.left && !input.right {
            return StateTransition::To(PlayerStateType::Idle);
        }
        StateTransition::Stay
    }

    fn update(&self, _ctx: &UpdateContext) -> (r: StateTransition) {
        StateTransition::Stay
    }

    fn get_animation_config(&self) -> (r: AnimationConfig) {
        AnimationConfig {
            sprite_path: "player/run-sheet.png",
            first_frame: 1,
            last_frame: 7,
            frame_duration_ms: 70,
        }
    }

    fn get_physics_config(&self) -> (r: PhysicsConfig) {
        PhysicsConfig {
            ground_speed: RUN_SPEED,
            air_control: false,
            apply_gravity: false,
            locks_movement: false,
        }
    }

    fn is_attacking(&self) -> (r: bool) {
        false
    }

    fn get_damage(&self) -> (r: i32) {
        0
    }
}

} // verus!
