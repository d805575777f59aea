use crate::config::{
    AnimationConfig, InputContext, PhysicsConfig, PlayerStateType, StateTransition, UpdateContext,
};
use crate::state::StateLogic;
use vstd::prelude::*;

verus! {

/// Basic punch.
#[derive(Clone, Copy, Debug, Default, PartialEq, Eq, Structural)]
pub struct PunchStateData;

impl StateLogic for PunchStateData {
    open spec fn kind(&self) -> PlayerStateType {
        PlayerStateType::Punch
    }

    fn handle_input(&self, input: &InputContext) -> (r: StateTransition) {
        // a follow-up is only taken in the second half of the animation
        if input.up_arrow {
            if input.current_frame >= input.total_frames / 2 {
                return StateTransition::QueueCombo(PlayerStateType::PunchCombo);
            }
        }
        StateTransition::Stay
    }

    fn update(&self, ctx: &UpdateContext) -> (r: StateTransition) {
        if ctx.animation_finished {
            return StateTransition::To(PlayerStateType::Idle);
        }
        StateTransition::Stay
    }

    fn get_animation_config(&self) -> (r: AnimationConfig) {
        AnimationConfig {
            sprite_path: "player/punch-sheet.png",
            first_frame: 1,
            last_frame: 12,
            frame_duration_ms: 30,
        }
    }

    fn get_physics_config(&self) -> (r: PhysicsConfig) {
        PhysicsConfig {
            ground_speed: 0,
            air_control: false,
            apply_gravity: false,
            locks_movement: true,
        }
    }

    fn is_attacking(&self) -> (r: bool) {
        true
    }

    fn get_damage(&self) -> (r: i32) {
        2
    }
}

/// Second punch of a combo.
#[derive(Clone, Copy, Debug, Default, PartialEq, Eq, Structural)]
pub struct PunchComboStateData;

impl StateLogic for PunchComboStateData {
    open spec fn kind(&self) -> PlayerStateType {
        PlayerStateType::PunchCombo
    }

    fn handle_input(&self, input: &InputContext) -> (r: StateTransition) {
        // a follow-up is only taken in the second half of the animation
        if input.down_arrow {
            if input.current_frame >= input.total_frames / 2 {
                return StateTransition::QueueCombo(PlayerStateType::PunchKickCombo);
            }
        }
        StateTransition::Stay
    }

    fn update(&self, ctx: &UpdateContext) -> (r: StateTransition) {
        if ctx.animation_finished {
            return StateTransition::To(PlayerStateType::Idle);
        }
        StateTransition::Stay
    }

    fn get_animation_config(&self) -> (r: AnimationConfig) {
        AnimationConfig {
            sprite_path: "player/punch-combo-sheet.png",
            first_frame: 1,
            last_frame: 7,
            frame_duration_ms: 50,
        }
    }

    fn get_physics_config(&self) -> (r: PhysicsConfig) {
        PhysicsConfig {
            ground_speed: 0,
            air_control: false,
            apply_gravity: false,
            locks_movement: true,
        }
    }

    fn is_attacking(&self) -> (r: bool) {
        true
    }

    fn get_damage(&self) -> (r: i32) {
        2
    }
}

} // verus!
