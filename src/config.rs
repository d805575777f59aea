use vstd::prelude::*;

verus! {

/// Tag of each player state, used to request transitions.
#[derive(Clone, Copy, Debug, PartialEq, Eq, Structural)]
pub enum PlayerStateType {
    Idle,
    IdleToWalk,
    IdleToRun,
    Walk,
    Run,
    Jump,
    Fall,
    Land,
    Punch,
    PunchCombo,
    Kick,
    KickCombo,
    PunchKickCombo,
    JumpPunch,
    JumpKick,
    Defeat,
}

/// What a state answers to input or to an update.
#[derive(Clone, Copy, Debug, PartialEq, Eq, Structural)]
pub enum StateTransition {
    /// Replace the current state right away.
    To(PlayerStateType),
    /// Follow up with this attack once the current animation finishes.
    QueueCombo(PlayerStateType),
    /// Stay in the current state.
    Stay,
}

/// Keys seen by a state's input handler.
#[derive(Clone, Copy, Debug, Default)]
pub struct InputContext {
    pub left: bool,
    pub right: bool,
    pub shift: bool,
    pub space: bool,
    pub up_arrow: bool,
    pub down_arrow: bool,
    /// The aerial attack of the current jump has been spent.
    pub has_used_aerial_attack: bool,
    /// Current animation frame index.
    pub current_frame: usize,
    /// Frames in the animation (last frame index + 1).
    pub total_frames: usize,
}

/// Conditions seen by a state's update handler.
#[derive(Clone, Copy, Debug)]
pub struct UpdateContext {
    /// The animation reached its last frame on this tick.
    pub animation_finished: bool,
    /// The player stands at (or below) the ground line.
    pub is_at_ground: bool,
    /// Vertical velocity in milli-pixels per second.
    pub velocity_y: i64,
}

/// Sprite sheet and frame timing of a state.
#[derive(Clone, Copy, Debug)]
pub struct AnimationConfig {
    pub sprite_path: &'static str,
    pub first_frame: usize,
    pub last_frame: usize,
    pub frame_duration_ms: u32,
}

/// Movement rules of a state.
#[derive(Clone, Copy, Debug, Default, PartialEq, Eq, Structural)]
pub struct PhysicsConfig {
    /// Horizontal speed on the ground in milli-pixels per second (0 when standing).
    pub ground_speed: i64,
    /// Left/right steer the player in the air.
    pub air_control: bool,
    /// Gravity acts in this state.
    pub apply_gravity: bool,
    /// The state holds the player in place and ignores most input.
    pub locks_movement: bool,
}

/// Frames at or past the middle of the animation admit a combo follow-up.
pub open spec fn in_second_half(i: InputContext) -> bool {
    i.current_frame >= i.total_frames / 2
}

/// Input answer of the grounded states that can start attacks, jumps and movement.
pub open spec fn grounded_input(i: InputContext, moving: bool) -> StateTransition {
    if i.up_arrow {
        StateTransition::To(PlayerStateType::Punch)
    } else if i.down_arrow {
        StateTransition::To(PlayerStateType::Kick)
    } else if i.space {
        StateTransition::To(PlayerStateType::Jump)
    } else if moving {
        if !i.left && !i.right {
            StateTransition::To(PlayerStateType::Idle)
        } else {
            StateTransition::Stay
        }
    } else if i.left || i.right {
        if i.shift {
            StateTransition::To(PlayerStateType::IdleToRun)
        } else {
            StateTransition::To(PlayerStateType::IdleToWalk)
        }
    } else {
        StateTransition::Stay
    }
}

/// Input answer of the airborne states: one aerial attack per jump.
pub open spec fn airborne_input(i: InputContext) -> StateTransition {
    if !i.has_used_aerial_attack && i.up_arrow {
        StateTransition::To(PlayerStateType::JumpPunch)
    } else if !i.has_used_aerial_attack && i.down_arrow {
        StateTransition::To(PlayerStateType::JumpKick)
    } else {
        StateTransition::Stay
    }
}

/// Input answer of an attack that can be chained by `key` into `next`.
pub open spec fn combo_input(key: bool, i: InputContext, next: PlayerStateType) -> StateTransition {
    if key && in_second_half(i) {
        StateTransition::QueueCombo(next)
    } else {
        StateTransition::Stay
    }
}

/// How each state answers to input.
pub open spec fn input_response(s: PlayerStateType, i: InputContext) -> StateTransition {
    match s {
        PlayerStateType::Idle => grounded_input(i, false),
        PlayerStateType::IdleToWalk | PlayerStateType::IdleToRun | PlayerStateType::Walk
        | PlayerStateType::Run => grounded_input(i, true),
        PlayerStateType::Jump | PlayerStateType::Fall => airborne_input(i),
        PlayerStateType::Punch => combo_input(i.up_arrow, i, PlayerStateType::PunchCombo),
        PlayerStateType::PunchCombo => combo_input(
            i.down_arrow,
            i,
            PlayerStateType::PunchKickCombo,
        ),
        PlayerStateType::Kick => combo_input(i.down_arrow, i, PlayerStateType::KickCombo),
        _ => StateTransition::Stay,
    }
}

/// `To(next)` when the animation has finished, else `Stay`.
pub open spec fn after_animation(c: UpdateContext, next: PlayerStateType) -> StateTransition {
    if c.animation_finished {
        StateTransition::To(next)
    } else {
        StateTransition::Stay
    }
}

/// How each state answers to an update.
pub open spec fn update_response(s: PlayerStateType, c: UpdateContext) -> StateTransition {
    match s {
        PlayerStateType::IdleToWalk => after_animation(c, PlayerStateType::Walk),
        PlayerStateType::IdleToRun => after_animation(c, PlayerStateType::Run),
        PlayerStateType::Jump => if c.velocity_y <= 0 {
            StateTransition::To(PlayerStateType::Fall)
        } else {
            StateTransition::Stay
        },
        PlayerStateType::Fall => if c.is_at_ground {
            StateTransition::To(PlayerStateType::Land)
        } else {
            StateTransition::Stay
        },
        PlayerStateType::Land | PlayerStateType::Punch | PlayerStateType::PunchCombo
        | PlayerStateType::Kick | PlayerStateType::KickCombo
        | PlayerStateType::PunchKickCombo => after_animation(c, PlayerStateType::Idle),
        PlayerStateType::JumpPunch | PlayerStateType::JumpKick => if c.is_at_ground {
            after_animation(c, PlayerStateType::Land)
        } else {
            after_animation(c, PlayerStateType::Fall)
        },
        _ => StateTransition::Stay,
    }
}

/// The six attacking states.
pub open spec fn attacking(s: PlayerStateType) -> bool {
    match s {
        PlayerStateType::Punch | PlayerStateType::PunchCombo | PlayerStateType::Kick
        | PlayerStateType::KickCombo | PlayerStateType::PunchKickCombo
        | PlayerStateType::JumpPunch | PlayerStateType::JumpKick => true,
        _ => false,
    }
}

/// The two airborne attacks.
pub open spec fn aerial_attack(s: PlayerStateType) -> bool {
    s == PlayerStateType::JumpPunch || s == PlayerStateType::JumpKick
}

/// Damage dealt by each state.
pub open spec fn damage_of(s: PlayerStateType) -> i32 {
    match s {
        PlayerStateType::Punch | PlayerStateType::PunchCombo => 2,
        PlayerStateType::Kick | PlayerStateType::KickCombo | PlayerStateType::PunchKickCombo => 3,
        PlayerStateType::JumpPunch | PlayerStateType::JumpKick => 6,
        _ => 0,
    }
}

/// Ground speed of walking, in milli-pixels per second.
pub const WALK_SPEED: i64 = 200_000;

/// Ground speed of running, in milli-pixels per second.
pub const RUN_SPEED: i64 = 600_000;

/// Ground speed while winding up to a run, in milli-pixels per second.
pub const RUN_START_SPEED: i64 = 400_000;

/// Movement rules of each state.
pub open spec fn physics_of(s: PlayerStateType) -> PhysicsConfig {
    let still = PhysicsConfig {
        ground_speed: 0,
        air_control: false,
        apply_gravity: false,
        locks_movement: false,
    };
    match s {
        PlayerStateType::Idle => still,
        PlayerStateType::IdleToWalk | PlayerStateType::Walk => PhysicsConfig {
            ground_speed: WALK_SPEED,
            ..still
        },
        PlayerStateType::IdleToRun => PhysicsConfig { ground_speed: RUN_START_SPEED, ..still },
        PlayerStateType::Run => PhysicsConfig { ground_speed: RUN_SPEED, ..still },
        PlayerStateType::Jump | PlayerStateType::Fall => PhysicsConfig {
            air_control: true,
            apply_gravity: true,
            ..still
        },
        PlayerStateType::JumpPunch | PlayerStateType::JumpKick => PhysicsConfig {
            air_control: true,
            ..still
        },
        _ => PhysicsConfig { locks_movement: true, ..still },
    }
}

/// Sprite sheet, last frame index and frame time (ms) of each state; every sheet starts at frame 1.
pub open spec fn animation_of(s: PlayerStateType) -> (Seq<char>, usize, u32) {
    match s {
        PlayerStateType::Idle => ("player/idle-sheet.png"@, 23, 120),
        PlayerStateType::IdleToWalk => ("player/idle-to-walk-sheet.png"@, 6, 60),
        PlayerStateType::IdleToRun => ("player/idle-to-run-sheet.png"@, 7, 60),
        PlayerStateType::Walk => ("player/walk-sheet.png"@, 11, 90),
        PlayerStateType::Run => ("player/run-sheet.png"@, 7, 70),
        PlayerStateType::Jump => ("player/jump-sheet.png"@, 26, 50),
        PlayerStateType::Fall => ("player/falling-sheet.png"@, 19, 100),
        PlayerStateType::Land => ("player/landing-sheet.png"@, 20, 20),
        PlayerStateType::Punch => ("player/punch-sheet.png"@, 12, 30),
        PlayerStateType::PunchCombo => ("player/punch-combo-sheet.png"@, 7, 50),
        PlayerStateType::Kick => ("player/kick-sheet.png"@, 20, 20),
        PlayerStateType::KickCombo => ("player/kick-combo-sheet.png"@, 19, 20),
        PlayerStateType::PunchKickCombo => ("player/punch-kick-combo-sheet.png"@, 16, 30),
        PlayerStateType::JumpPunch => ("player/jump-punch-sheet.png"@, 17, 20),
        PlayerStateType::JumpKick => ("player/jump-kick-sheet.png"@, 19, 20),
        PlayerStateType::Defeat => ("player/defeat-sheet.png"@, 20, 100),
    }
}

/// `c` is the animation of state `s`.
pub open spec fn is_animation_of(c: AnimationConfig, s: PlayerStateType) -> bool {
    &&& c.sprite_path@ == animation_of(s).0
    &&& c.first_frame == 1
    &&& c.last_frame == animation_of(s).1
    &&& c.frame_duration_ms == animation_of(s).2
}

} // verus!
