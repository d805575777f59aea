use crate::config::{
    AnimationConfig, InputContext, PhysicsConfig, PlayerStateType, StateTransition, UpdateContext,
};
use crate::state::StateLogic;
use vstd::prelude::*;

verus! {

/// Standing still.
#[derive(Clone, Copy, Debug, Default, PartialEq, Eq, Structural)]
pub struct IdleStateData;

impl StateLogic for IdleStateData {
    open spec fn kind(&self) -> PlayerStateType {
        PlayerStateType::Idle
    }

    fn handle_input(&self, input: &InputContext) -> (r: StateTransition) {
        // attacks first, then jumping, then movement
        if input.up_arrow {
            return StateTransition::To(PlayerStateType::Punch);
        }
        if input.down_arrow {
            return StateTransition::To(PlayerStateType::Kick);
        }
        if input.space {
            return StateTransition::To(PlayerStateType::Jump);
        }
        if input.left || input.right {
            // shift is the run modifier
            if input.shift {
                return StateTransition::To(PlayerStateType::IdleToRun);
            } else {
                return StateTransition::To(PlayerStateType::IdleToWalk);
            }
        }
        StateTransition::Stay
    }

    fn update(&self, _ctx: &UpdateContext) -> (r: StateTransition) {
        StateTransition::Stay
    }

    fn get_animation_config(&self) -> (r: AnimationConfig) {
        AnimationConfig {
            sprite_path: "player/idle-sheet.png",
            first_frame: 1,
            last_frame: 23,
            frame_duration_ms: 120,
        }
    }

    fn get_physics_config(&self) -> (r: PhysicsConfig) {
        PhysicsConfig {
            ground_speed: 0,
            air_control: false,
            apply_gravity: false,
            locks_movement: false,
        }
    }

    fn is_attacking(&self) -> (r: bool) {
        false
    }

    fn get_damage(&self) -> (r: i32) {
        0
    }
}

} // verus!
