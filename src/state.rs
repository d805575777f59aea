use crate::config::{
    attacking, damage_of, input_response, is_animation_of, physics_of, update_response,
    AnimationConfig, InputContext, PhysicsConfig, PlayerStateType, StateTransition, UpdateContext,
};
use crate::states::{
    DefeatStateData, FallStateData, IdleStateData, IdleToRunStateData, IdleToWalkStateData,
    JumpKickStateData, JumpPunchStateData, JumpStateData, KickComboStateData, KickStateData,
    LandStateData, PunchComboStateData, PunchKickComboStateData, PunchStateData, RunStateData,
    WalkStateData,
};
use vstd::prelude::*;

verus! {

/// Behaviour shared by all player states: input handling, automatic
/// transitions, animation and physics settings.
pub trait StateLogic {
    /// Which state this is.
    spec fn kind(&self) -> PlayerStateType;

    /// Answer to the keys of this tick.
    fn handle_input(&self, input: &InputContext) -> (r: StateTransition)
        ensures
            r == input_response(self.kind(), *input),
    ;

    /// Answer to animation and physics conditions.
    fn update(&self, ctx: &UpdateContext) -> (r: StateTransition)
        ensures
            r == update_response(self.kind(), *ctx),
    ;

    /// Sprite sheet and frame timing.
    fn get_animation_config(&self) -> (r: AnimationConfig)
        ensures
            is_animation_of(r, self.kind()),
    ;

    /// Movement rules.
    fn get_physics_config(&self) -> (r: PhysicsConfig)
        ensures
            r == physics_of(self.kind()),
    ;

    /// The state is an attack.
    fn is_attacking(&self) -> (r: bool)
        ensures
            r == attacking(self.kind()),
    ;

    /// Damage dealt by the state.
    fn get_damage(&self) -> (r: i32)
        ensures
            r == damage_of(self.kind()),
    ;
}

/// The player's current state: exactly one variant at any time.
#[derive(Clone, Copy, Debug, PartialEq, Eq, Structural)]
pub enum PlayerState {
    Idle(IdleStateData),
    IdleToWalk(IdleToWalkStateData),
    IdleToRun(IdleToRunStateData),
    Walk(WalkStateData),
    Run(RunStateData),
    Jump(JumpStateData),
    Fall(FallStateData),
    Land(LandStateData),
    Punch(PunchStateData),
    PunchCombo(PunchComboStateData),
    Kick(KickStateData),
    KickCombo(KickComboStateData),
    PunchKickCombo(PunchKickComboStateData),
    JumpPunch(JumpPunchStateData),
    JumpKick(JumpKickStateData),
    Defeat(DefeatStateData),
}

impl PlayerState {
    /// The tag of the active variant.
    pub open spec fn state_type(self) -> PlayerStateType {
        match self {
            PlayerState::Idle(_) => PlayerStateType::Idle,
            PlayerState::IdleToWalk(_) => PlayerStateType::IdleToWalk,
            PlayerState::IdleToRun(_) => PlayerStateType::IdleToRun,
            PlayerState::Walk(_) => PlayerStateType::Walk,
            PlayerState::Run(_) => PlayerStateType::Run,
            PlayerState::Jump(_) => PlayerStateType::Jump,
            PlayerState::Fall(_) => PlayerStateType::Fall,
            PlayerState::Land(_) => PlayerStateType::Land,
            PlayerState::Punch(_) => PlayerStateType::Punch,
            PlayerState::PunchCombo(_) => PlayerStateType::PunchCombo,
            PlayerState::Kick(_) => PlayerStateType::Kick,
            PlayerState::KickCombo(_) => PlayerStateType::KickCombo,
            PlayerState::PunchKickCombo(_) => PlayerStateType::PunchKickCombo,
            PlayerState::JumpPunch(_) => PlayerStateType::JumpPunch,
            PlayerState::JumpKick(_) => PlayerStateType::JumpKick,
            PlayerState::Defeat(_) => PlayerStateType::Defeat,
        }
    }

    /// Hands the input to the active state.
    pub fn handle_input(&self, input: &InputContext) -> (r: StateTransition)
        ensures
            r == input_response(self.state_type(), *input),
    {
        match self {
            PlayerState::Idle(s) => s.handle_input(input),
            PlayerState::IdleToWalk(s) => s.handle_input(input),
            PlayerState::IdleToRun(s) => s.handle_input(input),
            PlayerState::Walk(s) => s.handle_input(input),
            PlayerState::Run(s) => s.handle_input(input),
            PlayerState::Jump(s) => s.handle_input(input),
            PlayerState::Fall(s) => s.handle_input(input),
            PlayerState::Land(s) => s.handle_input(input),
            PlayerState::Punch(s) => s.handle_input(input),
            PlayerState::PunchCombo(s) => s.handle_input(input),
            PlayerState::Kick(s) => s.handle_input(input),
            PlayerState::KickCombo(s) => s.handle_input(input),
            PlayerState::PunchKickCombo(s) => s.handle_input(input),
            PlayerState::JumpPunch(s) => s.handle_input(input),
            PlayerState::JumpKick(s) => s.handle_input(input),
            PlayerState::Defeat(s) => s.handle_input(input),
        }
    }

    /// Hands the update conditions to the active state.
    pub fn update(&self, ctx: &UpdateContext) -> (r: StateTransition)
        ensures
            r == update_response(self.state_type(), *ctx),
    {
        match self {
            PlayerState::Idle(s) => s.update(ctx),
            PlayerState::IdleToWalk(s) => s.update(ctx),
            PlayerState::IdleToRun(s) => s.update(ctx),
            PlayerState::Walk(s) => s.update(ctx),
            PlayerState::Run(s) => s.update(ctx),
            PlayerState::Jump(s) => s.update(ctx),
            PlayerState::Fall(s) => s.update(ctx),
            PlayerState::Land(s) => s.update(ctx),
            PlayerState::Punch(s) => s.update(ctx),
            PlayerState::PunchCombo(s) => s.update(ctx),
            PlayerState::Kick(s) => s.update(ctx),
            PlayerState::KickCombo(s) => s.update(ctx),
            PlayerState::PunchKickCombo(s) => s.update(ctx),
            PlayerState::JumpPunch(s) => s.update(ctx),
            PlayerState::JumpKick(s) => s.update(ctx),
            PlayerState::Defeat(s) => s.update(ctx),
        }
    }

    /// Animation of the active state.
    pub fn get_animation_config(&self) -> (r: AnimationConfig)
        ensures
            is_animation_of(r, self.state_type()),
    {
        match self {
            PlayerState::Idle(s) => s.get_animation_config(),
            PlayerState::IdleToWalk(s) => s.get_animation_config(),
            PlayerState::IdleToRun(s) => s.get_animation_config(),
            PlayerState::Walk(s) => s.get_animation_config(),
            PlayerState::Run(s) => s.get_animation_config(),
            PlayerState::Jump(s) => s.get_animation_config(),
            PlayerState::Fall(s) => s.get_animation_config(),
            PlayerState::Land(s) => s.get_animation_config(),
            PlayerState::Punch(s) => s.get_animation_config(),
            PlayerState::PunchCombo(s) => s.get_animation_config(),
            PlayerState::Kick(s) => s.get_animation_config(),
            PlayerState::KickCombo(s) => s.get_animation_config(),
            PlayerState::PunchKickCombo(s) => s.get_animation_config(),
            PlayerState::JumpPunch(s) => s.get_animation_config(),
            PlayerState::JumpKick(s) => s.get_animation_config(),
            PlayerState::Defeat(s) => s.get_animation_config(),
        }
    }

    /// Movement rules of the active state.
    pub fn get_physics_config(&self) -> (r: PhysicsConfig)
        ensures
            r == physics_of(self.state_type()),
    {
        match self {
            PlayerState::Idle(s) => s.get_physics_config(),
            PlayerState::IdleToWalk(s) => s.get_physics_config(),
            PlayerState::IdleToRun(s) => s.get_physics_config(),
            PlayerState::Walk(s) => s.get_physics_config(),
            PlayerState::Run(s) => s.get_physics_config(),
            PlayerState::Jump(s) => s.get_physics_config(),
            PlayerState::Fall(s) => s.get_physics_config(),
            PlayerState::Land(s) => s.get_physics_config(),
            PlayerState::Punch(s) => s.get_physics_config(),
            PlayerState::PunchCombo(s) => s.get_physics_config(),
            PlayerState::Kick(s) => s.get_physics_config(),
            PlayerState::KickCombo(s) => s.get_physics_config(),
            PlayerState::PunchKickCombo(s) => s.get_physics_config(),
            PlayerState::JumpPunch(s) => s.get_physics_config(),
            PlayerState::JumpKick(s) => s.get_physics_config(),
            PlayerState::Defeat(s) => s.get_physics_config(),
        }
    }

    /// The active state holds the player in place and ignores all but combo input.
    pub fn locks_input(&self) -> (r: bool)
        ensures
            r == physics_of(self.state_type()).locks_movement,
    {
        self.get_physics_config().locks_movement
    }

    /// The active state is an attack.
    pub fn is_attacking(&self) -> (r: bool)
        ensures
            r == attacking(self.state_type()),
    {
        match self {
            PlayerState::Idle(s) => s.is_attacking(),
            PlayerState::IdleToWalk(s) => s.is_attacking(),
            PlayerState::IdleToRun(s) => s.is_attacking(),
            PlayerState::Walk(s) => s.is_attacking(),
            PlayerState::Run(s) => s.is_attacking(),
            PlayerState::Jump(s) => s.is_attacking(),
            PlayerState::Fall(s) => s.is_attacking(),
            PlayerState::Land(s) => s.is_attacking(),
            PlayerState::Punch(s) => s.is_attacking(),
            PlayerState::PunchCombo(s) => s.is_attacking(),
            PlayerState::Kick(s) => s.is_attacking(),
            PlayerState::KickCombo(s) => s.is_attacking(),
            PlayerState::PunchKickCombo(s) => s.is_attacking(),
            PlayerState::JumpPunch(s) => s.is_attacking(),
            PlayerState::JumpKick(s) => s.is_attacking(),
            PlayerState::Defeat(s) => s.is_attacking(),
        }
    }

    /// Damage dealt by the active state.
    pub fn get_damage(&self) -> (r: i32)
        ensures
            r == damage_of(self.state_type()),
    {
        match self {
            PlayerState::Idle(s) => s.get_damage(),
            PlayerState::IdleToWalk(s) => s.get_damage(),
            PlayerState::IdleToRun(s) => s.get_damage(),
            PlayerState::Walk(s) => s.get_damage(),
            PlayerState::Run(s) => s.get_damage(),
            PlayerState::Jump(s) => s.get_damage(),
            PlayerState::Fall(s) => s.get_damage(),
            PlayerState::Land(s) => s.get_damage(),
            PlayerState::Punch(s) => s.get_damage(),
            PlayerState::PunchCombo(s) => s.get_damage(),
            PlayerState::Kick(s) => s.get_damage(),
            PlayerState::KickCombo(s) => s.get_damage(),
            PlayerState::PunchKickCombo(s) => s.get_damage(),
            PlayerState::JumpPunch(s) => s.get_damage(),
            PlayerState::JumpKick(s) => s.get_damage(),
            PlayerState::Defeat(s) => s.get_damage(),
        }
    }

    /// The state of the given type.
    pub open spec fn of_type(t: PlayerStateType) -> PlayerState {
        match t {
            PlayerStateType::Idle => PlayerState::Idle(IdleStateData),
            PlayerStateType::IdleToWalk => PlayerState::IdleToWalk(IdleToWalkStateData),
            PlayerStateType::IdleToRun => PlayerState::IdleToRun(IdleToRunStateData),
            PlayerStateType::Walk => PlayerState::Walk(WalkStateData),
            PlayerStateType::Run => PlayerState::Run(RunStateData),
            PlayerStateType::Jump => PlayerState::Jump(JumpStateData),
            PlayerStateType::Fall => PlayerState::Fall(FallStateData),
            PlayerStateType::Land => PlayerState::Land(LandStateData),
            PlayerStateType::Punch => PlayerState::Punch(PunchStateData),
            PlayerStateType::PunchCombo => PlayerState::PunchCombo(PunchComboStateData),
            PlayerStateType::Kick => PlayerState::Kick(KickStateData),
            PlayerStateType::KickCombo => PlayerState::KickCombo(KickComboStateData),
            PlayerStateType::PunchKickCombo => PlayerState::PunchKickCombo(PunchKickComboStateData),
            PlayerStateType::JumpPunch => PlayerState::JumpPunch(JumpPunchStateData),
            PlayerStateType::JumpKick => PlayerState::JumpKick(JumpKickStateData),
            PlayerStateType::Defeat => PlayerState::Defeat(DefeatStateData),
        }
    }

    /// A fresh state of the given type.
    pub fn transition_to(state_type: PlayerStateType) -> (r: PlayerState)
        ensures
            r == PlayerState::of_type(state_type),
            r.state_type() == state_type,
    {
        match state_type {
            PlayerStateType::Idle => PlayerState::Idle(IdleStateData),
            PlayerStateType::IdleToWalk => PlayerState::IdleToWalk(IdleToWalkStateData),
            PlayerStateType::IdleToRun => PlayerState::IdleToRun(IdleToRunStateData),
            PlayerStateType::Walk => PlayerState::Walk(WalkStateData),
            PlayerStateType::Run => PlayerState::Run(RunStateData),
            PlayerStateType::Jump => PlayerState::Jump(JumpStateData),
            PlayerStateType::Fall => PlayerState::Fall(FallStateData),
            PlayerStateType::Land => PlayerState::Land(LandStateData),
            PlayerStateType::Punch => PlayerState::Punch(PunchStateData),
            PlayerStateType::PunchCombo => PlayerState::PunchCombo(PunchComboStateData),
            PlayerStateType::Kick => PlayerState::Kick(KickStateData),
            PlayerStateType::KickCombo => PlayerState::KickCombo(KickComboStateData),
            PlayerStateType::PunchKickCombo => PlayerState::PunchKickCombo(PunchKickComboStateData),
            PlayerStateType::JumpPunch => PlayerState::JumpPunch(JumpPunchStateData),
            PlayerStateType::JumpKick => PlayerState::JumpKick(JumpKickStateData),
            PlayerStateType::Defeat => PlayerState::Defeat(DefeatStateData),
        }
    }
}

} // verus!
