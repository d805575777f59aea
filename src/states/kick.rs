use crate::config::{
    AnimationConfig, InputContext, PhysicsConfig, PlayerStateType, StateTransition, UpdateContext,
};
use crate::state::StateLogic;
use vstd::prelude::*;

verus! {

/// Basic kick.
#[derive(Clone, Copy, Debug, Default, PartialEq, Eq, Structural)]
pub struct KickStateData;

impl StateLogic for KickStateData {
    open spec fn kind(&self) -> PlayerStateType {
        PlayerStateType::Kick
    }

    fn handle_input(&self, input: &InputContext) -> (r: StateTransition) {
        // a follow-up is only taken in the second half of the animation
        if input.down_arrow {
            if input.current_frame >= input.total_frames / 2 {
                return StateTransition::QueueCombo(PlayerStateType::KickCombo);
            }
        }
        StateTransition::Stay
    }

    fn update(&self, ctx: &UpdateContext) -> (r: StateTransition) {
        if ctx.animation_finished {
            return StateTransition::To(PlayerStateType::Idle);
        }
        StateTransition::Stay
    }

    fn get_animation_config(&self) -> (r: AnimationConfig) {
        AnimationConfig {
            sprite_path: "player/kick-sheet.png",
            first_frame: 1,
            last_frame: 20,
            frame_duration_ms: 20,
        }
    }

    fn get_physics_config(&self) -> (r: PhysicsConfig) {
        PhysicsConfig {
            ground_speed: 0,
            air_control: false,
            apply_gravity: false,
            locks_movement: true,
        }
    }

    fn is_attacking(&self) -> (r: bool) {
        true
    }

    fn get_damage(&self) -> (r: i32) {
        3
    }
}

/// Second kick of a combo; nothing follows it.
#[derive(Clone, Copy, Debug, Default, PartialEq, Eq, Structural)]
pub struct KickComboStateData;

impl StateLogic for KickComboStateData {
    open spec fn kind(&self) -> PlayerStateType {
        PlayerStateType::KickCombo
    }

    fn handle_input(&self, _input: &InputContext) -> (r: StateTransition) {
        StateTransition::Stay
    }

    fn update(&self, ctx: &UpdateContext) -> (r: StateTransition) {
        if ctx.animation_finished {
            return StateTransition::To(PlayerStateType::Idle);
        }
        StateTransition::Stay
    }

    fn get_animation_config(&self) -> (r: AnimationConfig) {
        AnimationConfig {
            sprite_path: "player/kick-combo-sheet.png",
            first_frame: 1,
            last_frame: 19,
            frame_duration_ms: 20,
        }
    }

    fn get_physics_config(&self) -> (r: PhysicsConfig) {
        PhysicsConfig {
            ground_speed: 0,
            air_control: false,
            apply_gravity: false,
            locks_movement: true,
        }
    }

    fn is_attacking(&self) -> (r: bool) {
        true
    }

    fn get_damage(&self) -> (r: i32) {
        3
    }
}

} // verus!
