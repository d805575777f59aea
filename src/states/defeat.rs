use crate::config::{
    AnimationConfig, InputContext, PhysicsConfig, PlayerStateType, StateTransition, UpdateContext,
};
use crate::state::StateLogic;
use vstd::prelude::*;

verus! {

/// Defeated; no input or update leaves this state.
#[derive(Clone, Copy, Debug, Default, PartialEq, Eq, Structural)]
pub struct DefeatStateData;

impl StateLogic for DefeatStateData {
    open spec fn kind(&self) -> PlayerStateType {
        PlayerStateType::Defeat
    }

    fn handle_input(&self, _input: &InputContext) -> (r: StateTransition) {
        StateTransition::Stay
    }

    fn update(&self, _ctx: &UpdateContext) -> (r: StateTransition) {
        StateTransition::Stay
    }

    fn get_animation_config(&self) -> (r: AnimationConfig) {
        AnimationConfig {
            sprite_path: "player/defeat-sheet.png",
            first_frame: 1,
            last_frame: 20,
            frame_duration_ms: 100,
        }
    }

    fn get_physics_config(&self) -> (r: PhysicsConfig) {
        PhysicsConfig {
            ground_speed: 0,
            air_control: false,
            apply_gravity: false,
            locks_movement: true,
        }
    }

    fn is_attacking(&self) -> (r: bool) {
        false
    }

    fn get_damage(&self) -> (r: i32) {
        0
    }
}

} // verus!
