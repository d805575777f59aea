use crate::config::{
    AnimationConfig, InputContext, PhysicsConfig, PlayerStateType, StateTransition, UpdateContext,
};
use crate::state::StateLogic;
use vstd::prelude::*;

verus! {

/// Punch in the air; the height is held while it lasts.
#[derive(Clone, Copy, Debug, Default, PartialEq, Eq, Structural)]
pub struct JumpPunchStateData;

impl StateLogic for JumpPunchStateData {
    open spec fn kind(&self) -> PlayerStateType {
        PlayerStateType::JumpPunch
    }

    fn handle_input(&self, _input: &InputContext) -> (r: StateTransition) {
        StateTransition::Stay
    }

    fn update(&self, ctx: &UpdateContext) -> (r: StateTransition) {
        if ctx.animation_finished {
            if !ctx.is_at_ground {
                return StateTransition::To(PlayerStateType::Fall);
            } else {
                return StateTransition::To(PlayerStateType::Land);
            }
        }
        StateTransition::Stay
    }

    fn get_animation_config(&self) -> (r: AnimationConfig) {
        AnimationConfig {
            sprite_path: "player/jump-punch-sheet.png",
            first_frame: 1,
            last_frame: 17,
            frame_duration_ms: 20,
        }
    }

    fn get_physics_config(&self) -> (r: PhysicsConfig) {
        PhysicsConfig {
            ground_speed: 0,
            air_control: true,
            apply_gravity: false,
            locks_movement: false,
        }
    }

    fn is_attacking(&self) -> (r: bool) {
        true
    }

    fn get_damage(&self) -> (r: i32) {
        6
    }
}

/// Kick in the air; the height is held while it lasts.
#[derive(Clone, Copy, Debug, Default, PartialEq, Eq, Structural)]
pub struct JumpKickStateData;

impl StateLogic for JumpKickStateData {
    open spec fn kind(&self) -> PlayerStateType {
        PlayerStateType::JumpKick
    }

    fn handle_input(&self, _input: &InputContext) -> (r: StateTransition) {
        StateTransition::Stay
    }

    fn update(&self, ctx: &UpdateContext) -> (r: StateTransition) {
        if ctx.animation_finished {
            if !ctx.is_at_ground {
                return StateTransition::To(PlayerStateType::Fall);
            } else {
                return StateTransition::To(PlayerStateType::Land);
            }
        }
        StateTransition::Stay
    }

    fn get_animation_config(&self) -> (r: AnimationConfig) {
        AnimationConfig {
            sprite_path: "player/jump-kick-sheet.png",
            first_frame: 1,
            last_frame: 19,
            frame_duration_ms: 20,
        }
    }

    fn get_physics_config(&self) -> (r: PhysicsConfig) {
        PhysicsConfig {
            ground_speed: 0,
            air_control: true,
            apply_gravity: false,
            locks_movement: false,
        }
    }

    fn is_attacking(&self) -> (r: bool) {
        true
    }

    fn get_damage(&self) -> (r: i32) {
        6
    }
}

} // verus!
