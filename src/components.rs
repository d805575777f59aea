use crate::config::PlayerStateType;
use crate::geometry::Vec2;
use crate::timer::{Timer, TimerMode};
use std::collections::HashSet;
use vstd::prelude::*;

verus! {

/// Direction an actor faces or moves in.
#[derive(Clone, Copy, Debug, PartialEq, Eq, Structural)]
pub enum Direction {
    Neutral,
    Left,
    Right,
}

/// First and last frame of the running animation.
#[derive(Clone, Copy, Debug, PartialEq, Eq, Structural)]
pub struct AnimationIndices {
    pub first: usize,
    pub last: usize,
}

/// Paces the frames of an animation.
#[derive(Clone, Copy, Debug, PartialEq, Eq, Structural)]
pub struct AnimationTimer(pub Timer);

/// Health of an actor; it may drop below zero on the hit that defeats it.
#[derive(Clone, Copy, Debug, PartialEq, Eq, Structural)]
pub struct Health {
    pub current: i32,
    pub max: i32,
}

/// Area an attack strikes, placed relative to the attacker.
#[derive(Clone, Copy, Debug, PartialEq, Eq, Structural)]
pub struct Hitbox {
    pub offset: Vec2,
    pub size: Vec2,
    pub active: bool,
}

/// Area in which an actor can be struck, centred on it.
#[derive(Clone, Copy, Debug, PartialEq, Eq, Structural)]
pub struct HurtBox {
    pub size: Vec2,
}

/// A stunned enemy does not move or deal contact damage.
#[derive(Clone, Copy, Debug, PartialEq, Eq, Structural)]
pub struct Stunned {
    pub timer: Timer,
}

/// Push applied after a hit, in milli-pixels per second.
#[derive(Clone, Copy, Debug, PartialEq, Eq, Structural)]
pub struct Knockback {
    pub velocity: Vec2,
}

/// Red tint shown after a hit.
#[derive(Clone, Copy, Debug, PartialEq, Eq, Structural)]
pub struct HitFlash {
    pub timer: Timer,
    pub flash_duration_ms: u32,
}

/// An invulnerable player takes no contact damage.
#[derive(Clone, Copy, Debug, PartialEq, Eq, Structural)]
pub struct Invulnerable {
    pub timer: Timer,
}

/// Enemies already struck by the attack in progress.
#[derive(Debug, Default)]
pub struct HitTracking {
    pub hit_enemies: HashSet<u64>,
}

impl HitTracking {
    pub fn new() -> (r: HitTracking)
        ensures
            r.hit_enemies@ == Set::<u64>::empty(),
    {
        HitTracking { hit_enemies: HashSet::new() }
    }
}

/// `attacker` deals `damage` to `target`.
#[derive(Clone, Copy, Debug, PartialEq, Eq, Structural)]
pub struct DamageEvent {
    pub attacker: u64,
    pub target: u64,
    pub damage: i32,
}

/// An enemy's health reached zero.
#[derive(Clone, Copy, Debug, PartialEq, Eq, Structural)]
pub struct EnemyDefeatedEvent {
    pub enemy: u64,
}

/// The player's health reached zero.
#[derive(Clone, Copy, Debug, PartialEq, Eq, Structural)]
pub struct PlayerDefeatedEvent;

/// Keys held, or pressed on this tick, that steer the player.
#[derive(Clone, Copy, Debug, Default, PartialEq, Eq, Structural)]
pub struct Keys {
    /// Left held.
    pub left: bool,
    /// Right held.
    pub right: bool,
    /// Run modifier held.
    pub shift: bool,
    /// Jump pressed.
    pub space: bool,
    /// Punch pressed.
    pub up: bool,
    /// Kick pressed.
    pub down: bool,
    /// Restart pressed.
    pub restart: bool,
}

/// Marks an enemy.
#[derive(Clone, Copy, Debug, PartialEq, Eq, Structural)]
pub struct Enemy;

/// What an enemy is doing.
#[derive(Clone, Copy, Debug, PartialEq, Eq, Structural)]
pub enum EnemyState {
    Idle,
    Move,
}

/// Marks the player.
#[derive(Clone, Copy, Debug, PartialEq, Eq, Structural)]
pub struct Player;

/// Vertical motion of the player; speeds in milli-pixels per second.
#[derive(Clone, Copy, Debug, PartialEq, Eq, Structural)]
pub struct JumpPhysics {
    pub velocity_y: i64,
    /// Height of the ground under the current jump, in milli-pixels.
    pub ground_y: i32,
    /// Upward speed at take-off.
    pub jump_force: i64,
    /// The aerial attack of the current jump has been spent.
    pub has_used_aerial_attack: bool,
}

/// Time allowed to chain attacks, and the follow-up waiting to start.
#[derive(Clone, Copy, Debug, PartialEq, Eq, Structural)]
pub struct ComboWindow {
    pub timer: Timer,
    pub last_attack: Option<PlayerStateType>,
    /// Attack to start when the current animation finishes.
    pub queued_combo: Option<PlayerStateType>,
}

/// Length of the combo window in milliseconds.
pub const COMBO_WINDOW_MS: u32 = 500;

/// Upward speed at take-off, in milli-pixels per second.
pub const JUMP_FORCE: i64 = 1_000_000;

/// Height of the floor, in milli-pixels.
pub const FLOOR_Y: i32 = -100_000;

/// Health of the player at the start of a game.
pub const PLAYER_MAX_HEALTH: i32 = 20;

impl ComboWindow {
    /// A closed-off window with nothing queued.
    pub fn new() -> (r: ComboWindow)
        ensures
            r == (ComboWindow {
                timer: Timer::new_spec(COMBO_WINDOW_MS, TimerMode::Once),
                last_attack: None,
                queued_combo: None,
            }),
    {
        ComboWindow {
            timer: Timer::new(COMBO_WINDOW_MS, TimerMode::Once),
            last_attack: None,
            queued_combo: None,
        }
    }
}

impl JumpPhysics {
    /// At rest on the floor, aerial attack available.
    pub fn new() -> (r: JumpPhysics)
        ensures
            r == (JumpPhysics {
                velocity_y: 0,
                ground_y: FLOOR_Y,
                jump_force: JUMP_FORCE,
                has_used_aerial_attack: false,
            }),
    {
        JumpPhysics {
            velocity_y: 0,
            ground_y: FLOOR_Y,
            jump_force: JUMP_FORCE,
            has_used_aerial_attack: false,
        }
    }
}

impl Health {
    /// Full health.
    pub fn new(max: i32) -> (r: Health)
        ensures
            r.current == max,
            r.max == max,
    {
        Health { current: max, max }
    }
}

} // verus!
