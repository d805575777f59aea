//! Per-tick decay of the effects a hit leaves: stun, invulnerability,
//! knockback and hit flash.
use crate::components::{HitFlash, Invulnerable, Knockback, Stunned};
use crate::geometry::{advance, clamp_i32, div_toward_zero, divide_toward_zero, travel, Vec2};
use vstd::prelude::*;

verus! {

/// Knockback slower than this is dropped, in milli-pixels per second.
pub const KNOCKBACK_REST_SPEED: i64 = 10_000;

/// Distance from the ground line within which an actor counts as grounded,
/// in milli-pixels.
pub const GROUNDED_TOLERANCE: i64 = 1000;

/// Full tint intensity.
pub const FULL_INTENSITY: u64 = 1000;

/// A stun after `dt_ms` more milliseconds; gone once its timer runs out.
pub open spec fn stun_after(s: Option<Stunned>, dt_ms: u32) -> Option<Stunned> {
    match s {
        None => None,
        Some(st) => {
            let t = st.timer.ticked(dt_ms as u64);
            if t.finished {
                None
            } else {
                Some(Stunned { timer: t })
            }
        },
    }
}

/// Counts a stun down and lifts it when it runs out.
pub fn update_stun_timers(stunned: &mut Option<Stunned>, dt_ms: u32)
    ensures
        *final(stunned) == stun_after(*old(stunned), dt_ms),
{
    if let Some(s) = stunned {
        s.timer.tick(dt_ms as u64);
        if s.timer.is_finished() {
            *stunned = None;
        }
    }
}

/// Invulnerability after `dt_ms` more milliseconds; gone once its timer runs out.
pub open spec fn invulnerability_after(v: Option<Invulnerable>, dt_ms: u32) -> Option<
    Invulnerable,
> {
    match v {
        None => None,
        Some(iv) => {
            let t = iv.timer.ticked(dt_ms as u64);
            if t.finished {
                None
            } else {
                Some(Invulnerable { timer: t })
            }
        },
    }
}

/// Counts invulnerability down and lifts it when it runs out.
pub fn update_invulnerability(invulnerable: &mut Option<Invulnerable>, dt_ms: u32)
    ensures
        *final(invulnerable) == invulnerability_after(*old(invulnerable), dt_ms),
{
    if let Some(v) = invulnerable {
        v.timer.tick(dt_ms as u64);
        if v.timer.is_finished() {
            *invulnerable = None;
        }
    }
}

/// Tint strength (out of `FULL_INTENSITY`) after `elapsed` of a flash
/// lasting `duration`: falls linearly from full to none.
pub open spec fn flash_intensity(elapsed: u64, duration: u32) -> u64 {
    if elapsed >= duration {
        0
    } else {
        (FULL_INTENSITY - (elapsed * FULL_INTENSITY) / duration as int) as u64
    }
}

/// A hit flash after `dt_ms` more milliseconds, and its tint strength;
/// gone, with no tint, once its timer runs out.
pub open spec fn flash_after(f: Option<HitFlash>, dt_ms: u32) -> (Option<HitFlash>, u64) {
    match f {
        None => (None, 0),
        Some(hf) => {
            let t = hf.timer.ticked(dt_ms as u64);
            if t.finished {
                (None, 0)
            } else {
                (
                    Some(HitFlash { timer: t, ..hf }),
                    flash_intensity(t.elapsed_ms, hf.flash_duration_ms),
                )
            }
        },
    }
}

/// Counts a hit flash down; returns the tint strength to show.
pub fn update_hit_flash(flash: &mut Option<HitFlash>, dt_ms: u32) -> (intensity: u64)
    ensures
        (*final(flash), intensity) == flash_after(*old(flash), dt_ms),
{
    match flash {
        None => 0,
        Some(f) => {
            f.timer.tick(dt_ms as u64);
            if f.timer.is_finished() {
                *flash = None;
                return 0;
            }
            let elapsed = f.timer.elapsed_ms;
            let duration = f.flash_duration_ms as u64;
            if elapsed >= duration {
                0
            } else {
                let part: u128 = (elapsed as u128 * FULL_INTENSITY as u128) / duration as u128;
                assert(part <= FULL_INTENSITY) by (nonlinear_arith)
                    requires
                        part == (elapsed * FULL_INTENSITY) / duration as int,
                        elapsed < duration,
                ;
                FULL_INTENSITY - part as u64
            }
        },
    }
}

/// A knockback speed one tick later: nine tenths, rounded toward zero.
pub open spec fn decayed(v: int) -> int {
    div_toward_zero(9 * v, 10)
}

/// The knockback velocity one tick later.
pub open spec fn decayed_velocity(v: Vec2) -> Vec2 {
    Vec2 { x: decayed(v.x as int) as i32, y: decayed(v.y as int) as i32 }
}

/// The velocity is too slow to keep pushing.
pub open spec fn at_rest(v: Vec2) -> bool {
    v.x * v.x + v.y * v.y < KNOCKBACK_REST_SPEED * KNOCKBACK_REST_SPEED
}

/// The actor is on its ground line (`ground_y` is `None` for actors that
/// do not jump).
pub open spec fn grounded(y: i32, ground_y: Option<i32>) -> bool {
    match ground_y {
        Some(g) => -GROUNDED_TOLERANCE < y - g < GROUNDED_TOLERANCE,
        None => false,
    }
}

/// Position and knockback after one tick of knockback: a grounded actor is
/// only pushed sideways; the push then decays and ends once at rest.
pub open spec fn knockback_after(
    pos: Vec2,
    k: Option<Knockback>,
    ground_y: Option<i32>,
    dt_ms: u32,
) -> (Vec2, Option<Knockback>) {
    match k {
        None => (pos, None),
        Some(kb) => {
            let v = kb.velocity;
            let x = clamp_i32(pos.x + travel(v.x as int, dt_ms as int));
            let y = if grounded(pos.y, ground_y) {
                pos.y
            } else {
                clamp_i32(pos.y + travel(v.y as int, dt_ms as int))
            };
            let v2 = decayed_velocity(v);
            (Vec2 { x, y }, if at_rest(v2) {
                None
            } else {
                Some(Knockback { velocity: v2 })
            })
        },
    }
}

fn decay_component(v: i32) -> (r: i32)
    ensures
        r == decayed(v as int),
{
    let q = divide_toward_zero(9 * v as i128, 10);
    assert(-0x8000_0000 <= q <= 0x7fff_ffff) by (nonlinear_arith)
        requires
            q == div_toward_zero(9 * v, 10),
            -0x8000_0000 <= v <= 0x7fff_ffff,
    ;
    q as i32
}

/// Pushes an actor by its knockback and lets the knockback decay.
pub fn apply_knockback(
    position: &mut Vec2,
    knockback: &mut Option<Knockback>,
    ground_y: Option<i32>,
    dt_ms: u32,
)
    ensures
        (*final(position), *final(knockback)) == knockback_after(
            *old(position),
            *old(knockback),
            ground_y,
            dt_ms,
        ),
{
    let v = match knockback {
        None => return,
        Some(k) => k.velocity,
    };
    let is_grounded = match ground_y {
        Some(g) => {
            let d: i64 = position.y as i64 - g as i64;
            -GROUNDED_TOLERANCE < d && d < GROUNDED_TOLERANCE
        },
        None => false,
    };
    position.x = advance(position.x, v.x as i64, dt_ms);
    if !is_grounded {
        position.y = advance(position.y, v.y as i64, dt_ms);
    }
    let v2 = Vec2 { x: decay_component(v.x), y: decay_component(v.y) };
    let (vx, vy) = (v2.x as i128, v2.y as i128);
    assert(0 <= vx * vx <= 0x4000_0000_0000_0000 && 0 <= vy * vy <= 0x4000_0000_0000_0000)
        by (nonlinear_arith)
        requires
            -0x8000_0000 <= vx <= 0x8000_0000,
            -0x8000_0000 <= vy <= 0x8000_0000,
    ;
    let speed_sq: i128 = vx * vx + vy * vy;
    let rest: i128 = KNOCKBACK_REST_SPEED as i128;
    if speed_sq < rest * rest {
        *knockback = None;
    } else {
        *knockback = Some(Knockback { velocity: v2 });
    }
}

} // verus!
