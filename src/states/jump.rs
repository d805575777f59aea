use crate::config::{
    AnimationConfig, InputContext, PhysicsConfig, PlayerStateType, StateTransition, UpdateContext,
};
use crate::state::StateLogic;
use vstd::prelude::*;

verus! {

/// Rising part of a jump.
#[derive(Clone, Copy, Debug, Default, PartialEq, Eq, Structural)]
pub struct JumpStateData;

impl StateLogic for JumpStateData {
    open spec fn kind(&self) -> PlayerStateType {
        PlayerStateType::Jump
    }

    fn handle_input(&self, input: &InputContext) -> (r: StateTransition) {
        // one aerial attack per jump
        if !input.has_used_aerial_attack {
            if input.up_arrow {
                return StateTransition::To(PlayerStateType::JumpPunch);
            }
            if input.down_arrow {
                return StateTransition::To(PlayerStateType::JumpKick);
            }
        }
        StateTransition::Stay
    }

    fn update(&self, ctx: &UpdateContext) -> (r: StateTransition) {
        // the peak is reached once the player stops rising
        if ctx.velocity_y <= 0 {
            return StateTransition::To(PlayerStateType::Fall);
        }
        StateTransition::Stay
    }

    fn get_animation_config(&self) -> (r: AnimationConfig) {
        AnimationConfig {
            sprite_path: "player/jump-sheet.png",
            first_frame: 1,
            last_frame: 26,
            frame_duration_ms: 50,
        }
    }

    fn get_physics_config(&self) -> (r: PhysicsConfig) {
        PhysicsConfig {
            ground_speed: 0,
            air_control: true,
            apply_gravity: true,
            locks_movement: false,
        }
    }

    fn is_attacking(&self) -> (r: bool) {
        false
    }

    fn get_damage(&self) -> (r: i32) {
        0
    }
}

/// Falling part of a jump.
#[derive(Clone, Copy, Debug, Default, PartialEq, Eq, Structural)]
pub struct FallStateData;

impl StateLogic for FallStateData {
    open spec fn kind(&self) -> PlayerStateType {
        PlayerStateType::Fall
    }

    fn handle_input(&self, input: &InputContext) -> (r: StateTransition) {
        // one aerial attack per jump
        if !input.has_used_aerial_attack {
            if input.up_arrow {
                return StateTransition::To(PlayerStateType::JumpPunch);
            }
            if input.down_arrow {
                return StateTransition::To(PlayerStateType::JumpKick);
            }
        }
        StateTransition::Stay
    }

    fn update(&self, ctx: &UpdateContext) -> (r: StateTransition) {
        if ctx.is_at_ground {
            return StateTransition::To(PlayerStateType::Land);
        }
        StateTransition::Stay
    }

    fn get_animation_config(&self) -> (r: AnimationConfig) {
        AnimationConfig {
            sprite_path: "player/falling-sheet.png",
            first_frame: 1,
            last_frame: 19,
            frame_duration_ms: 100,
        }
    }

    fn get_physics_config(&self) -> (r: PhysicsConfig) {
        PhysicsConfig {
            ground_speed: 0,
            air_control: true,
            apply_gravity: true,
            locks_movement: false,
        }
    }

    fn is_attacking(&self) -> (r: bool) {
        false
    }

    fn get_damage(&self) -> (r: i32) {
        0
    }
}

/// Landing after a jump; input cannot cut it short.
#[derive(Clone, Copy, Debug, Default, PartialEq, Eq, Structural)]
pub struct LandStateData;

impl StateLogic for LandStateData {
    open spec fn kind(&self) -> PlayerStateType {
        PlayerStateType::Land
    }

    fn handle_input(&self, _input: &InputContext) -> (r: StateTransition) {
        StateTransition::Stay
    }

    fn update(&self, ctx: &UpdateContext) -> (r: StateTransition) {
        if ctx.animation_finished {
            return StateTransition::To(PlayerStateType::Idle);
        }
        StateTransition::Stay
    }

    fn get_animation_config(&self) -> (r: AnimationConfig) {
        AnimationConfig {
            sprite_path: "player/landing-sheet.png",
            first_frame: 1,
            last_frame: 20,
            frame_duration_ms: 20,
        }
    }

    fn get_physics_config(&self) -> (r: PhysicsConfig) {
        PhysicsConfig {
            ground_speed: 0,
            air_control: false,
            apply_gravity: false,
            locks_movement: true,
        }
    }

    fn is_attacking(&self) -> (r: bool) {
        false
    }

    fn get_damage(&self) -> (r: i32) {
        0
    }
}

} // verus!
