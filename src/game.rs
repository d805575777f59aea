//! Game-wide bookkeeping around the player: the clock, enemy spawning and
//! chasing, defeats, animation frames and restarting.
use crate::components::{
    AnimationIndices, AnimationTimer, ComboWindow, Direction, Health, HitFlash, HurtBox,
    Invulnerable, JumpPhysics, Keys, Knockback, COMBO_WINDOW_MS, FLOOR_Y, JUMP_FORCE,
};
use crate::config::PlayerStateType;
use crate::geometry::{advance, clamp_i32, travel, Vec2};
use crate::state::PlayerState;
use crate::timer::{Timer, TimerMode};
use vstd::prelude::*;

verus! {

/// Length of a game, in milliseconds.
pub const GAME_DURATION_MS: u32 = 120_000;

/// Most enemies alive at once.
pub const MAX_ENEMIES: u32 = 6;

/// Least time between two spawns, in milliseconds.
pub const SPAWN_INTERVAL_MS: u64 = 2000;

/// Distance from the centre at which enemies appear, in milli-pixels.
pub const SPAWN_X: i32 = 1_600_000;

/// Health of a new enemy.
pub const ENEMY_HEALTH: i32 = 6;

/// Points for each defeated enemy.
pub const POINTS_PER_ENEMY: u32 = 10;

/// Where the player starts, in milli-pixels.
pub const PLAYER_START_X: i32 = -200_000;

/// Where the player starts, in milli-pixels.
pub const PLAYER_START_Y: i32 = -200_000;

/// Horizontal distance beyond which an enemy turns toward the player, in milli-pixels.
pub const CHASE_TURN_DISTANCE: i32 = 150_000;

/// Vertical distance beyond which an enemy closes in on the player, in milli-pixels.
pub const CHASE_VERTICAL_DEADBAND: i32 = 10_000;

/// Horizontal enemy speed, in milli-pixels per second.
pub const ENEMY_SPEED_X: i64 = 150_000;

/// Vertical enemy speed, in milli-pixels per second.
pub const ENEMY_SPEED_Y: i64 = 50_000;

/// Score, enemy count and clock of a game.
#[derive(Clone, Copy, Debug, PartialEq, Eq, Structural)]
pub struct GameState {
    pub score: u32,
    pub n_enemies: u32,
    pub timer: Timer,
    /// Clock reading at the last spawn, in milliseconds.
    pub last_spawn_ms: u64,
    pub game_over: bool,
    pub game_duration_ms: u32,
}

impl GameState {
    /// The state of a game about to begin.
    pub open spec fn fresh() -> GameState {
        GameState {
            score: 0,
            n_enemies: 0,
            timer: Timer::new_spec(GAME_DURATION_MS, TimerMode::Once),
            last_spawn_ms: 0,
            game_over: false,
            game_duration_ms: GAME_DURATION_MS,
        }
    }

    pub fn new() -> (r: GameState)
        ensures
            r == GameState::fresh(),
    {
        GameState {
            score: 0,
            n_enemies: 0,
            timer: Timer::new(GAME_DURATION_MS, TimerMode::Once),
            last_spawn_ms: 0,
            game_over: false,
            game_duration_ms: GAME_DURATION_MS,
        }
    }
}

/// Runs the game clock; the game is over once it runs out. Returns whether
/// it ran out on this tick.
pub fn count_down(game: &mut GameState, dt_ms: u32) -> (ended: bool)
    ensures
        old(game).game_over ==> *final(game) == *old(game) && !ended,
        !old(game).game_over ==> {
            let t = old(game).timer.ticked(dt_ms as u64);
            &&& *final(game) == (GameState { timer: t, game_over: t.finished, ..*old(game) })
            &&& ended == t.finished
        },
{
    if game.game_over {
        return false;
    }
    game.timer.tick(dt_ms as u64);
    if game.timer.is_finished() {
        game.game_over = true;
        return true;
    }
    false
}

/// Whole seconds left on the clock, rounded up.
pub fn time_remaining_secs(game: &GameState) -> (r: u64)
    ensures
        game.timer.elapsed_ms >= game.game_duration_ms ==> r == 0,
        game.timer.elapsed_ms < game.game_duration_ms ==> r == (game.game_duration_ms
            - game.timer.elapsed_ms + 999) / 1000,
{
    if game.timer.elapsed_ms >= game.game_duration_ms as u64 {
        0
    } else {
        let left: u64 = game.game_duration_ms as u64 - game.timer.elapsed_ms;
        left / 1000 + if left % 1000 == 0 { 0 } else { 1 }
    }
}

/// A new enemy to place in the world.
#[derive(Clone, Copy, Debug, PartialEq, Eq, Structural)]
pub struct EnemySpawn {
    pub position: Vec2,
    pub facing: Direction,
    pub health: Health,
    pub hurtbox: HurtBox,
}

/// An enemy may appear: the game runs, there is room for one more, and
/// enough time passed since the last one.
pub open spec fn spawn_due(game: GameState) -> bool {
    &&& !game.game_over
    &&& game.n_enemies < MAX_ENEMIES
    &&& game.timer.elapsed_ms - game.last_spawn_ms >= SPAWN_INTERVAL_MS
}

/// The enemy that appears on the left or right edge, facing inward.
pub open spec fn spawn_at(left: bool) -> EnemySpawn {
    EnemySpawn {
        position: Vec2 { x: if left { (-SPAWN_X) as i32 } else { SPAWN_X }, y: 0 },
        facing: if left { Direction::Right } else { Direction::Left },
        health: Health { current: ENEMY_HEALTH, max: ENEMY_HEALTH },
        hurtbox: HurtBox { size: Vec2 { x: 80_000, y: 100_000 } },
    }
}

/// The game after an enemy appeared.
pub open spec fn after_spawn(game: GameState) -> GameState {
    GameState {
        n_enemies: (game.n_enemies + 1) as u32,
        last_spawn_ms: game.timer.elapsed_ms,
        ..game
    }
}

/// Decides whether an enemy appears on this tick, on the side given, and
/// counts it.
pub fn plan_enemy_spawn(game: &mut GameState, spawn_left: bool) -> (r: Option<EnemySpawn>)
    ensures
        spawn_due(*old(game)) ==> r == Some(spawn_at(spawn_left)) && *final(game) == after_spawn(
            *old(game),
        ),
        !spawn_due(*old(game)) ==> r.is_none() && *final(game) == *old(game),
{
    if game.game_over || game.n_enemies >= MAX_ENEMIES {
        return None;
    }
    if (game.timer.elapsed_ms as u128) < game.last_spawn_ms as u128 + SPAWN_INTERVAL_MS as u128 {
        return None;
    }
    game.n_enemies = game.n_enemies + 1;
    game.last_spawn_ms = game.timer.elapsed_ms;
    Some(
        EnemySpawn {
            position: Vec2::new(if spawn_left { -SPAWN_X } else { SPAWN_X }, 0),
            facing: if spawn_left { Direction::Right } else { Direction::Left },
            health: Health::new(ENEMY_HEALTH),
            hurtbox: HurtBox { size: Vec2::new(80_000, 100_000) },
        },
    )
}

/// Relies on `rand::random`: a value drawn from the thread-local generator,
/// used to pick the side an enemy enters from. Nothing is promised of the
/// value; the call panics only if the operating system cannot seed the
/// generator.
pub assume_specification<T>[ rand::random::<T> ]() -> T
    where
        rand::distr::StandardUniform: rand::distr::Distribution<T>,
;

/// Spawns an enemy on a side picked at random, when one is due.
pub fn spawn_enemy(game: &mut GameState) -> (r: Option<EnemySpawn>)
    ensures
        spawn_due(*old(game)) ==> *final(game) == after_spawn(*old(game)) && exists|left: bool|
            r == Some(#[trigger] spawn_at(left)),
        !spawn_due(*old(game)) ==> r.is_none() && *final(game) == *old(game),
{
    if !(!game.game_over && game.n_enemies < MAX_ENEMIES && game.timer.elapsed_ms as u128
        >= game.last_spawn_ms as u128 + SPAWN_INTERVAL_MS as u128) {
        return None;
    }
    let spawn_left: bool = rand::random::<bool>();
    plan_enemy_spawn(game, spawn_left)
}

/// Scores a defeated enemy and stops counting it.
pub fn handle_enemy_defeat(game: &mut GameState)
    ensures
        *final(game) == (GameState {
            n_enemies: if old(game).n_enemies > 0 {
                (old(game).n_enemies - 1) as u32
            } else {
                0
            },
            score: if old(game).score + POINTS_PER_ENEMY <= u32::MAX {
                (old(game).score + POINTS_PER_ENEMY) as u32
            } else {
                u32::MAX
            },
            ..*old(game)
        }),
{
    game.n_enemies = game.n_enemies.saturating_sub(1);
    game.score = game.score.saturating_add(POINTS_PER_ENEMY);
}

/// The player's defeat ends the game, whether or not the player is still there.
pub fn end_game(game: &mut GameState)
    ensures
        *final(game) == (GameState { game_over: true, ..*old(game) }),
{
    game.game_over = true;
}

/// A defeated player enters `Defeat` and the game is over.
pub fn handle_player_defeat(state: &mut PlayerState, game: &mut GameState)
    ensures
        *final(state) == PlayerState::of_type(PlayerStateType::Defeat),
        *final(game) == (GameState { game_over: true, ..*old(game) }),
{
    *state = PlayerState::transition_to(PlayerStateType::Defeat);
    end_game(game);
}

/// After the game is over, the restart key starts a new game: clock, score
/// and enemy count start over. Returns whether the game restarted.
pub fn restart_game(keys: &Keys, game: &mut GameState) -> (restarted: bool)
    ensures
        restarted == (old(game).game_over && keys.restart),
        restarted ==> *final(game) == GameState::fresh(),
        !restarted ==> *final(game) == *old(game),
{
    if !game.game_over || !keys.restart {
        return false;
    }
    *game = GameState::new();
    true
}

/// After the game is over, the restart key starts a new game: clock, score
/// and enemy count start over, and the player is back at the start, idle, at
/// full health, with jump physics as at the start, no combo and no hit
/// effects. Returns whether the game restarted.
pub fn handle_restart(
    keys: &Keys,
    game: &mut GameState,
    health: &mut Health,
    state: &mut PlayerState,
    position: &mut Vec2,
    jump: &mut JumpPhysics,
    combo: &mut ComboWindow,
    invulnerable: &mut Option<Invulnerable>,
    knockback: &mut Option<Knockback>,
    hit_flash: &mut Option<HitFlash>,
) -> (restarted: bool)
    ensures
        restarted == (old(game).game_over && keys.restart),
        !restarted ==> {
            &&& *final(game) == *old(game)
            &&& *final(health) == *old(health)
            &&& *final(state) == *old(state)
            &&& *final(position) == *old(position)
            &&& *final(jump) == *old(jump)
            &&& *final(combo) == *old(combo)
            &&& *final(invulnerable) == *old(invulnerable)
            &&& *final(knockback) == *old(knockback)
            &&& *final(hit_flash) == *old(hit_flash)
        },
        restarted ==> {
            &&& *final(game) == GameState::fresh()
            &&& *final(health) == (Health { current: old(health).max, ..*old(health) })
            &&& *final(state) == PlayerState::of_type(PlayerStateType::Idle)
            &&& *final(position) == (Vec2 { x: PLAYER_START_X, y: PLAYER_START_Y })
            &&& *final(jump) == (JumpPhysics {
                velocity_y: 0,
                ground_y: FLOOR_Y,
                jump_force: JUMP_FORCE,
                has_used_aerial_attack: false,
            })
            &&& *final(combo) == (ComboWindow {
                timer: Timer::new_spec(COMBO_WINDOW_MS, TimerMode::Once),
                last_attack: None,
                queued_combo: None,
            })
            &&& final(invulnerable).is_none()
            &&& final(knockback).is_none()
            &&& final(hit_flash).is_none()
        },
{
    if !restart_game(keys, game) {
        return false;
    }
    health.current = health.max;
    *state = PlayerState::transition_to(PlayerStateType::Idle);
    *position = Vec2::new(PLAYER_START_X, PLAYER_START_Y);
    *jump = JumpPhysics::new();
    *combo = ComboWindow::new();
    *invulnerable = None;
    *knockback = None;
    *hit_flash = None;
    true
}

/// One tick of an enemy closing in on the player: it turns when the player is
/// far enough to one side, drifts toward the player's height, and walks the
/// way it faces. A stunned enemy stays put.
pub open spec fn chase_step(
    dt_ms: u32,
    player: Vec2,
    stunned: bool,
    pos: Vec2,
    facing: Direction,
) -> (Vec2, Direction) {
    if stunned {
        (pos, facing)
    } else {
        let dx = player.x - pos.x;
        let facing2 = if dx > CHASE_TURN_DISTANCE {
            Direction::Right
        } else if dx < -CHASE_TURN_DISTANCE {
            Direction::Left
        } else {
            facing
        };
        let dy = player.y - pos.y;
        let y = if dy > CHASE_VERTICAL_DEADBAND {
            clamp_i32(pos.y + travel(ENEMY_SPEED_Y as int, dt_ms as int))
        } else if dy < -CHASE_VERTICAL_DEADBAND {
            clamp_i32(pos.y + travel(-ENEMY_SPEED_Y, dt_ms as int))
        } else {
            pos.y
        };
        let x = match facing2 {
            Direction::Right => clamp_i32(pos.x + travel(ENEMY_SPEED_X as int, dt_ms as int)),
            Direction::Left => clamp_i32(pos.x + travel(-ENEMY_SPEED_X, dt_ms as int)),
            Direction::Neutral => pos.x,
        };
        (Vec2 { x, y }, facing2)
    }
}

/// Moves one enemy toward the player.
pub fn move_enemies(
    dt_ms: u32,
    player: Vec2,
    stunned: bool,
    position: &mut Vec2,
    facing: &mut Direction,
)
    ensures
        (*final(position), *final(facing)) == chase_step(
            dt_ms,
            player,
            stunned,
            *old(position),
            *old(facing),
        ),
{
    if stunned {
        return;
    }
    let dx: i64 = player.x as i64 - position.x as i64;
    if dx > CHASE_TURN_DISTANCE as i64 {
        *facing = Direction::Right;
    } else if dx < -CHASE_TURN_DISTANCE as i64 {
        *facing = Direction::Left;
    }
    let dy: i64 = player.y as i64 - position.y as i64;
    if dy > CHASE_VERTICAL_DEADBAND as i64 {
        position.y = advance(position.y, ENEMY_SPEED_Y, dt_ms);
    } else if dy < -CHASE_VERTICAL_DEADBAND as i64 {
        position.y = advance(position.y, -ENEMY_SPEED_Y, dt_ms);
    }
    match *facing {
        Direction::Right => {
            position.x = advance(position.x, ENEMY_SPEED_X, dt_ms);
        },
        Direction::Left => {
            position.x = advance(position.x, -ENEMY_SPEED_X, dt_ms);
        },
        Direction::Neutral => {},
    }
}

/// One tick of a looping animation: on each frame period the frame moves on,
/// wrapping from the last to the first, except that a defeated player's
/// animation stops on its last frame.
pub open spec fn animation_step(
    timer: AnimationTimer,
    frame: usize,
    indices: AnimationIndices,
    defeated: bool,
    dt_ms: u32,
) -> (AnimationTimer, usize) {
    let t = timer.0.ticked(dt_ms as u64);
    let frame2 = if t.times_finished_this_tick > 0 {
        if defeated && frame == indices.last {
            frame
        } else if frame == indices.last {
            indices.first
        } else {
            (frame + 1) as usize
        }
    } else {
        frame
    };
    (AnimationTimer(t), frame2)
}

/// Advances a sprite's animation.
pub fn animate_sprite(
    dt_ms: u32,
    timer: &mut AnimationTimer,
    current_frame: &mut usize,
    indices: &AnimationIndices,
    defeated: bool,
)
    requires
        *old(current_frame) < usize::MAX,
    ensures
        (*final(timer), *final(current_frame)) == animation_step(
            *old(timer),
            *old(current_frame),
            *indices,
            defeated,
            dt_ms,
        ),
{
    timer.0.tick(dt_ms as u64);
    if timer.0.just_finished() {
        if defeated && *current_frame == indices.last {
            // the defeat animation holds its last frame
        } else if *current_frame == indices.last {
            *current_frame = indices.first;
        } else {
            *current_frame = *current_frame + 1;
        }
    }
}

} // verus!
