//! The player's per-tick stages: input, jump set-up, hit-tracking reset,
//! automatic transitions, animation set-up and movement.
use crate::components::{
    AnimationIndices, AnimationTimer, ComboWindow, Direction, HitTracking, JumpPhysics, Keys,
};
use crate::config::{
    attacking, input_response, is_animation_of, physics_of, update_response, AnimationConfig,
    InputContext, PlayerStateType, StateTransition, UpdateContext,
};
use crate::geometry::{advance, clamp_i32, clamp_i64, saturate_i64, travel, Vec2};
use crate::state::PlayerState;
use crate::timer::Timer;
use vstd::prelude::*;

verus! {

broadcast use vstd::std_specs::hash::group_hash_axioms;

/// Downward acceleration, in milli-pixels per second per millisecond.
pub const GRAVITY_PER_MS: i64 = 1800;

/// Horizontal speed under air control, in milli-pixels per second.
pub const AIR_CONTROL_SPEED: i64 = 250_000;

/// Distance above the ground line still counted as standing, in milli-pixels.
pub const GROUND_TOLERANCE: i32 = 1000;

/// What a state's input handler sees on this tick.
pub open spec fn input_context_of(
    keys: Keys,
    jump: JumpPhysics,
    current_frame: usize,
    indices: AnimationIndices,
) -> InputContext {
    InputContext {
        left: keys.left,
        right: keys.right,
        shift: keys.shift,
        space: keys.space,
        up_arrow: keys.up,
        down_arrow: keys.down,
        has_used_aerial_attack: jump.has_used_aerial_attack,
        current_frame,
        total_frames: frame_count(indices),
    }
}

/// Frames in the animation: the last index plus one, held at `usize::MAX`.
pub open spec fn frame_count(indices: AnimationIndices) -> usize {
    if indices.last == usize::MAX {
        usize::MAX
    } else {
        (indices.last + 1) as usize
    }
}

/// Input reaches the state: always, unless the state locks movement; then
/// only a combo key while the combo window is open.
pub open spec fn input_admitted(locks: bool, window_closed: bool, i: InputContext) -> bool {
    !locks || ((i.up_arrow || i.down_arrow) && !window_closed)
}

/// Effect of a state's answer to input: the new state, the combo window, and
/// whether the state was replaced.
pub open spec fn apply_input_answer(
    state: PlayerState,
    combo: ComboWindow,
    answer: StateTransition,
) -> (PlayerState, ComboWindow, bool) {
    match answer {
        StateTransition::To(next) => {
            let combo2 = if attacking(next) {
                ComboWindow { last_attack: Some(next), timer: combo.timer.restarted(), ..combo }
            } else {
                combo
            };
            (PlayerState::of_type(next), combo2, true)
        },
        StateTransition::QueueCombo(next) => {
            let combo2 = if !combo.timer.finished {
                ComboWindow { queued_combo: Some(next), ..combo }
            } else {
                combo
            };
            (state, combo2, false)
        },
        StateTransition::Stay => (state, combo, false),
    }
}

/// The input stage: skipped once the game is over; otherwise the combo
/// window runs for `dt_ms`, then admitted input goes to the state.
pub open spec fn input_step(
    keys: Keys,
    dt_ms: u32,
    game_over: bool,
    state: PlayerState,
    jump: JumpPhysics,
    combo: ComboWindow,
    current_frame: usize,
    indices: AnimationIndices,
) -> (PlayerState, ComboWindow, bool) {
    if game_over {
        (state, combo, false)
    } else {
        let combo1 = ComboWindow { timer: combo.timer.ticked(dt_ms as u64), ..combo };
        let i = input_context_of(keys, jump, current_frame, indices);
        if !input_admitted(
            physics_of(state.state_type()).locks_movement,
            combo1.timer.finished,
            i,
        ) {
            (state, combo1, false)
        } else {
            apply_input_answer(state, combo1, input_response(state.state_type(), i))
        }
    }
}

/// Hands this tick's keys to the player's state and applies its answer.
/// Returns whether the state was replaced.
pub fn player_input_system(
    keys: &Keys,
    dt_ms: u32,
    game_over: bool,
    state: &mut PlayerState,
    jump: &JumpPhysics,
    combo: &mut ComboWindow,
    current_frame: usize,
    indices: &AnimationIndices,
) -> (replaced: bool)
    ensures
        (*final(state), *final(combo), replaced) == input_step(
            *keys,
            dt_ms,
            game_over,
            *old(state),
            *jump,
            *old(combo),
            current_frame,
            *indices,
        ),
{
    if game_over {
        return false;
    }
    combo.timer.tick(dt_ms as u64);
    let input = InputContext {
        left: keys.left,
        right: keys.right,
        shift: keys.shift,
        space: keys.space,
        up_arrow: keys.up,
        down_arrow: keys.down,
        has_used_aerial_attack: jump.has_used_aerial_attack,
        current_frame,
        total_frames: indices.last.saturating_add(1),
    };
    if state.locks_input() {
        // combo keys get through a locked state while the window is open
        if input.up_arrow || input.down_arrow {
            if combo.timer.is_finished() {
                return false;
            }
        } else {
            return false;
        }
    }
    match state.handle_input(&input) {
        StateTransition::To(next) => {
            let new_state = PlayerState::transition_to(next);
            if new_state.is_attacking() {
                combo.last_attack = Some(next);
                combo.timer.reset();
            }
            *state = new_state;
            true
        },
        StateTransition::QueueCombo(next) => {
            if !combo.timer.is_finished() {
                combo.queued_combo = Some(next);
            }
            false
        },
        StateTransition::Stay => false,
    }
}

/// Jump physics on entering state `s` at height `y`.
pub open spec fn jump_on_entry(s: PlayerStateType, y: i32, jump: JumpPhysics) -> JumpPhysics {
    match s {
        PlayerStateType::Jump => JumpPhysics {
            ground_y: y,
            velocity_y: jump.jump_force,
            has_used_aerial_attack: false,
            ..jump
        },
        PlayerStateType::Fall => JumpPhysics { velocity_y: 0, ..jump },
        PlayerStateType::JumpPunch | PlayerStateType::JumpKick => JumpPhysics {
            has_used_aerial_attack: true,
            ..jump
        },
        _ => jump,
    }
}

/// Sets up jump physics for a state that was just entered, at height `y`:
/// a jump records the ground and takes off, a fall starts from rest, an
/// aerial attack spends the jump's aerial attack.
pub fn initialize_jump_physics(state: &PlayerState, y: i32, jump: &mut JumpPhysics)
    ensures
        *final(jump) == jump_on_entry(state.state_type(), y, *old(jump)),
{
    match state {
        PlayerState::Jump(_) => {
            jump.ground_y = y;
            jump.velocity_y = jump.jump_force;
            jump.has_used_aerial_attack = false;
        },
        PlayerState::Fall(_) => {
            jump.velocity_y = 0;
        },
        PlayerState::JumpPunch(_) | PlayerState::JumpKick(_) => {
            jump.has_used_aerial_attack = true;
        },
        _ => {},
    }
}

/// Forgets the enemies struck so far when a state just entered is an attack,
/// so that each attack may strike each enemy once.
pub fn clear_hit_tracking_on_state_change(state: &PlayerState, tracking: &mut HitTracking)
    ensures
        final(tracking).hit_enemies@ == if attacking(state.state_type()) {
            Set::<u64>::empty()
        } else {
            old(tracking).hit_enemies@
        },
{
    if state.is_attacking() {
        tracking.hit_enemies.clear();
    }
}

/// What a state's update handler sees on this tick.
pub open spec fn update_context_of(
    timer: AnimationTimer,
    indices: AnimationIndices,
    current_frame: usize,
    jump: JumpPhysics,
    y: i32,
) -> UpdateContext {
    UpdateContext {
        animation_finished: current_frame == indices.last && timer.0.times_finished_this_tick > 0,
        is_at_ground: y <= jump.ground_y + GROUND_TOLERANCE,
        velocity_y: jump.velocity_y,
    }
}

/// The update stage: a transition reported when the animation finishes
/// gives way to a queued combo, which is consumed and restarts the window.
pub open spec fn update_step(state: PlayerState, combo: ComboWindow, ctx: UpdateContext) -> (
    PlayerState,
    ComboWindow,
    bool,
) {
    match update_response(state.state_type(), ctx) {
        StateTransition::To(next) => {
            if ctx.animation_finished && combo.queued_combo.is_some() {
                let queued = combo.queued_combo.unwrap();
                (
                    PlayerState::of_type(queued),
                    ComboWindow {
                        queued_combo: None,
                        last_attack: Some(queued),
                        timer: combo.timer.restarted(),
                    },
                    true,
                )
            } else {
                (PlayerState::of_type(next), combo, true)
            }
        },
        _ => (state, combo, false),
    }
}

/// Applies the state's automatic transition, or the queued combo in its
/// place. Returns whether the state was replaced.
pub fn player_state_update_system(
    state: &mut PlayerState,
    timer: &AnimationTimer,
    indices: &AnimationIndices,
    current_frame: usize,
    combo: &mut ComboWindow,
    jump: &JumpPhysics,
    y: i32,
) -> (replaced: bool)
    ensures
        (*final(state), *final(combo), replaced) == update_step(
            *old(state),
            *old(combo),
            update_context_of(*timer, *indices, current_frame, *jump, y),
        ),
{
    let animation_finished = current_frame == indices.last && timer.0.just_finished();
    let ctx = UpdateContext {
        animation_finished,
        is_at_ground: (y as i64) <= jump.ground_y as i64 + GROUND_TOLERANCE as i64,
        velocity_y: jump.velocity_y,
    };
    match state.update(&ctx) {
        StateTransition::To(next) => {
            if animation_finished && combo.queued_combo.is_some() {
                // a queued combo overrides the state's own successor
                let queued = combo.queued_combo.unwrap();
                combo.queued_combo = None;
                *state = PlayerState::transition_to(queued);
                combo.last_attack = Some(queued);
                combo.timer.reset();
            } else {
                *state = PlayerState::transition_to(next);
            }
            true
        },
        _ => false,
    }
}

/// Points the animation at the sheet of the current state: first frame,
/// that sheet's frame range and frame time, timer started over. Returns the
/// state's animation settings.
pub fn player_sprite_update_system(
    state: &PlayerState,
    current_frame: &mut usize,
    indices: &mut AnimationIndices,
    timer: &mut AnimationTimer,
) -> (r: AnimationConfig)
    ensures
        is_animation_of(r, state.state_type()),
        *final(current_frame) == r.first_frame,
        *final(indices) == (AnimationIndices { first: r.first_frame, last: r.last_frame }),
        final(timer).0 == (Timer { duration_ms: r.frame_duration_ms, ..old(timer).0 }).restarted(),
{
    let anim = state.get_animation_config();
    *current_frame = anim.first_frame;
    indices.first = anim.first_frame;
    indices.last = anim.last_frame;
    timer.0.duration_ms = anim.frame_duration_ms;
    timer.0.reset();
    anim
}

/// Gravity for `dt_ms`: the speed drops, the height follows it, and the
/// player stops on the ground line.
pub open spec fn fall_step(y: i32, jump: JumpPhysics, dt_ms: u32) -> (i32, JumpPhysics) {
    let v = clamp_i64(jump.velocity_y - GRAVITY_PER_MS * dt_ms);
    let y2 = clamp_i32(y + travel(v as int, dt_ms as int));
    if y2 < jump.ground_y {
        (jump.ground_y, JumpPhysics { velocity_y: 0, ..jump })
    } else {
        (y2, JumpPhysics { velocity_y: v, ..jump })
    }
}

/// Left or right held moves `x` at `speed` and turns the player that way; left wins.
pub open spec fn steer_step(x: i32, facing: Direction, keys: Keys, speed: i64, dt_ms: u32) -> (
    i32,
    Direction,
) {
    if keys.left {
        (clamp_i32(x + travel(-speed, dt_ms as int)), Direction::Left)
    } else if keys.right {
        (clamp_i32(x + travel(speed as int, dt_ms as int)), Direction::Right)
    } else {
        (x, facing)
    }
}

/// The movement stage for state `s`: gravity, air control, ground movement,
/// then the player is held above the ground line.
pub open spec fn physics_step(
    s: PlayerStateType,
    keys: Keys,
    dt_ms: u32,
    pos: Vec2,
    jump: JumpPhysics,
    facing: Direction,
) -> (Vec2, JumpPhysics, Direction) {
    let cfg = physics_of(s);
    let (y1, jump1) = if cfg.apply_gravity {
        fall_step(pos.y, jump, dt_ms)
    } else {
        (pos.y, jump)
    };
    let (x1, facing1) = if cfg.air_control {
        steer_step(pos.x, facing, keys, AIR_CONTROL_SPEED, dt_ms)
    } else {
        (pos.x, facing)
    };
    let (x2, facing2) = if !cfg.locks_movement && cfg.ground_speed > 0 {
        steer_step(x1, facing1, keys, cfg.ground_speed, dt_ms)
    } else {
        (x1, facing1)
    };
    if y1 < jump1.ground_y {
        (Vec2 { x: x2, y: jump1.ground_y }, JumpPhysics { velocity_y: 0, ..jump1 }, facing2)
    } else {
        (Vec2 { x: x2, y: y1 }, jump1, facing2)
    }
}

fn steer(x: &mut i32, facing: &mut Direction, keys: &Keys, speed: i64, dt_ms: u32)
    requires
        speed > i64::MIN,
    ensures
        (*final(x), *final(facing)) == steer_step(*old(x), *old(facing), *keys, speed, dt_ms),
{
    if keys.left {
        *x = advance(*x, -speed, dt_ms);
        *facing = Direction::Left;
    } else if keys.right {
        *x = advance(*x, speed, dt_ms);
        *facing = Direction::Right;
    }
}

/// Moves the player for `dt_ms` as its state allows.
pub fn player_physics_system(
    dt_ms: u32,
    keys: &Keys,
    state: &PlayerState,
    position: &mut Vec2,
    jump: &mut JumpPhysics,
    facing: &mut Direction,
)
    ensures
        (*final(position), *final(jump), *final(facing)) == physics_step(
            state.state_type(),
            *keys,
            dt_ms,
            *old(position),
            *old(jump),
            *old(facing),
        ),
{
    let cfg = state.get_physics_config();
    if cfg.apply_gravity {
        jump.velocity_y = saturate_i64(
            jump.velocity_y as i128 - GRAVITY_PER_MS as i128 * dt_ms as i128,
        );
        position.y = advance(position.y, jump.velocity_y, dt_ms);
        if position.y < jump.ground_y {
            position.y = jump.ground_y;
            jump.velocity_y = 0;
        }
    }
    if cfg.air_control {
        steer(&mut position.x, facing, keys, AIR_CONTROL_SPEED, dt_ms);
    }
    if !cfg.locks_movement && cfg.ground_speed > 0 {
        steer(&mut position.x, facing, keys, cfg.ground_speed, dt_ms);
    }
    // knockback may have pushed the player below the ground line
    if position.y < jump.ground_y {
        position.y = jump.ground_y;
        jump.velocity_y = 0;
    }
}

} // verus!
