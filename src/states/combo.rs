use crate::config::{
    AnimationConfig, InputContext, PhysicsConfig, PlayerStateType, StateTransition, UpdateContext,
};
use crate::state::StateLogic;
use vstd::prelude::*;

verus! {

/// Kick that ends the punch-punch-kick combo.
#[derive(Clone, Copy, Debug, Default, PartialEq, Eq, Structural)]
pub struct PunchKickComboStateData;

impl StateLogic for PunchKickComboStateData {
    open spec fn kind(&self) -> PlayerStateType {
        PlayerStateType::PunchKickCombo
    }

    fn handle_input(&self, _input: &InputContext) -> (r: StateTransition) {
        StateTransition::Stay
    }

    fn update(&self, ctx: &UpdateContext) -> (r: StateTransition) {
        if ctx.animation_finished {
            return StateTransition::To(PlayerStateType::Idle);
        }
        StateTransition::Stay
    }

    fn get_animation_config(&self) -> (r: AnimationConfig) {
        AnimationConfig {
            sprite_path: "player/punch-kick-combo-sheet.png",
            first_frame: 1,
            last_frame: 16,
            frame_duration_ms: 30,
        }
    }

    fn get_physics_config(&self) -> (r: PhysicsConfig) {
        PhysicsConfig {
            ground_speed: 0,
            air_control: false,
            apply_gravity: false,
            locks_movement: true,
        }
    }

    fn is_attacking(&self) -> (r: bool) {
        true
    }

    fn get_damage(&self) -> (r: i32) {
        3
    }
}

} // verus!
