use vstd::prelude::*;

verus! {

/// A 2D vector of integers: a position or size in milli-pixels, or a
/// velocity in milli-pixels per second.
#[derive(Clone, Copy, Debug, Default, PartialEq, Eq, Structural)]
pub struct Vec2 {
    pub x: i32,
    pub y: i32,
}

/// Milli-pixels in one pixel.
pub const UNITS_PER_PIXEL: i32 = 1000;

/// Milliseconds in one second.
pub const MS_PER_SECOND: i64 = 1000;

impl Vec2 {
    pub fn new(x: i32, y: i32) -> (r: Vec2)
        ensures
            r.x == x,
            r.y == y,
    {
        Vec2 { x, y }
    }

    pub fn zero() -> (r: Vec2)
        ensures
            r.x == 0,
            r.y == 0,
    {
        Vec2 { x: 0, y: 0 }
    }
}

/// `x` held to the range of `i32`.
pub open spec fn clamp_i32(x: int) -> i32 {
    if x < i32::MIN {
        i32::MIN
    } else if x > i32::MAX {
        i32::MAX
    } else {
        x as i32
    }
}

/// `x` held to the range of `i64`.
pub open spec fn clamp_i64(x: int) -> i64 {
    if x < i64::MIN {
        i64::MIN
    } else if x > i64::MAX {
        i64::MAX
    } else {
        x as i64
    }
}

/// Integer division rounding toward zero, for a positive divisor.
pub open spec fn div_toward_zero(a: int, b: int) -> int {
    if a >= 0 {
        a / b
    } else {
        -((-a) / b)
    }
}

/// Distance covered in `dt_ms` milliseconds at `v` units per second.
pub open spec fn travel(v: int, dt_ms: int) -> int {
    div_toward_zero(v * dt_ms, MS_PER_SECOND as int)
}

/// The integer square root: the largest `r` with `r * r <= n`.
pub open spec fn is_isqrt(n: int, r: int) -> bool {
    0 <= r && r * r <= n && n < (r + 1) * (r + 1)
}

/// The integer square root of `n`.
pub open spec fn isqrt_of(n: int) -> int {
    choose|r: int| is_isqrt(n, r)
}

/// Only one number is the integer square root of `n`.
pub proof fn lemma_isqrt_unique(n: int, r: int)
    requires
        is_isqrt(n, r),
    ensures
        isqrt_of(n) == r,
{
    let q = isqrt_of(n);
    assert(is_isqrt(n, q));
    if q < r {
        assert((q + 1) * (q + 1) <= r * r) by (nonlinear_arith)
            requires
                0 <= q < r,
        ;
    } else if r < q {
        assert((r + 1) * (r + 1) <= q * q) by (nonlinear_arith)
            requires
                0 <= r < q,
        ;
    }
}

pub fn saturate_i32(x: i128) -> (r: i32)
    ensures
        r == clamp_i32(x as int),
{
    if x < i32::MIN as i128 {
        i32::MIN
    } else if x > i32::MAX as i128 {
        i32::MAX
    } else {
        x as i32
    }
}

pub fn saturate_i64(x: i128) -> (r: i64)
    ensures
        r == clamp_i64(x as int),
{
    if x < i64::MIN as i128 {
        i64::MIN
    } else if x > i64::MAX as i128 {
        i64::MAX
    } else {
        x as i64
    }
}

/// `a / b` rounded toward zero.
pub fn divide_toward_zero(a: i128, b: i128) -> (r: i128)
    requires
        b > 0,
        a > i128::MIN,
    ensures
        r == div_toward_zero(a as int, b as int),
{
    if a >= 0 {
        a / b
    } else {
        let q: i128 = (-a) / b;
        -q
    }
}

proof fn lemma_velocity_time_product(v: int, dt: int)
    requires
        i64::MIN <= v <= i64::MAX,
        0 <= dt <= u32::MAX,
    ensures
        -0x1_0000_0000_0000_0000_0000_0000 <= v * dt <= 0x1_0000_0000_0000_0000_0000_0000,
{
    assert(-0x8000_0000_0000_0000 * 0x1_0000_0000 <= v * dt <= 0x8000_0000_0000_0000
        * 0x1_0000_0000) by (nonlinear_arith)
        requires
            -0x8000_0000_0000_0000 <= v <= 0x8000_0000_0000_0000,
            0 <= dt <= 0x1_0000_0000,
    ;
}

/// `x` moved for `dt_ms` milliseconds at velocity `v`, held to the range of `i32`.
pub fn advance(x: i32, v: i64, dt_ms: u32) -> (r: i32)
    ensures
        r == clamp_i32(x + travel(v as int, dt_ms as int)),
{
    proof {
        lemma_velocity_time_product(v as int, dt_ms as int);
    }
    let prod: i128 = v as i128 * dt_ms as i128;
    let d: i128 = divide_toward_zero(prod, MS_PER_SECOND as i128);
    saturate_i32(x as i128 + d)
}

/// Largest `r` with `r * r <= n`.
pub fn isqrt(n: u128) -> (r: u128)
    requires
        n < 0x4_0000_0000_0000_0000,
    ensures
        is_isqrt(n as int, r as int),
        r <= 0x2_0000_0000,
{
    let mut lo: u128 = 0;
    let mut hi: u128 = 0x2_0000_0001;
    assert(n < hi * hi) by (nonlinear_arith)
        requires
            n < 0x4_0000_0000_0000_0000,
            hi == 0x2_0000_0001,
    ;
    while hi - lo > 1
        invariant
            lo < hi <= 0x2_0000_0001,
            lo * lo <= n,
            n < hi * hi,
        decreases hi - lo,
    {
        let mid: u128 = lo + (hi - lo) / 2;
        assert(mid * mid <= 0x2_0000_0001 * 0x2_0000_0001) by (nonlinear_arith)
            requires
                mid <= 0x2_0000_0001,
        ;
        if mid * mid <= n {
            lo = mid;
        } else {
            hi = mid;
        }
    }
    assert(hi == lo + 1);
    lo
}

/// Axis-aligned boxes, each given by its centre and size, overlap.
pub open spec fn boxes_overlap(pos1: Vec2, size1: Vec2, pos2: Vec2, size2: Vec2) -> bool {
    &&& 2 * pos1.x - size1.x < 2 * pos2.x + size2.x
    &&& 2 * pos1.x + size1.x > 2 * pos2.x - size2.x
    &&& 2 * pos1.y - size1.y < 2 * pos2.y + size2.y
    &&& 2 * pos1.y + size1.y > 2 * pos2.y - size2.y
}

/// Whether two boxes, given by centre and size, overlap.
pub fn aabb_collision(pos1: Vec2, size1: Vec2, pos2: Vec2, size2: Vec2) -> (r: bool)
    ensures
        r == boxes_overlap(pos1, size1, pos2, size2),
{
    let (p1x, p1y, s1x, s1y) = (pos1.x as i64, pos1.y as i64, size1.x as i64, size1.y as i64);
    let (p2x, p2y, s2x, s2y) = (pos2.x as i64, pos2.y as i64, size2.x as i64, size2.y as i64);
    (2 * p1x - s1x < 2 * p2x + s2x) && (2 * p1x + s1x > 2 * p2x - s2x) && (2 * p1y - s1y < 2 * p2y
        + s2y) && (2 * p1y + s1y > 2 * p2y - s2y)
}

/// Square of the distance between two points.
pub open spec fn distance_squared(a: Vec2, b: Vec2) -> int {
    (b.x - a.x) * (b.x - a.x) + (b.y - a.y) * (b.y - a.y)
}

/// Square of the distance between two points, exactly.
pub fn squared_distance(a: Vec2, b: Vec2) -> (r: u128)
    ensures
        r == distance_squared(a, b),
        r < 0x4_0000_0000_0000_0000,
{
    let dx: i64 = b.x as i64 - a.x as i64;
    let dy: i64 = b.y as i64 - a.y as i64;
    let ax: u128 = if dx < 0 { (-dx) as u128 } else { dx as u128 };
    let ay: u128 = if dy < 0 { (-dy) as u128 } else { dy as u128 };
    assert(ax * ax + ay * ay < 0x4_0000_0000_0000_0000) by (nonlinear_arith)
        requires
            ax < 0x1_0000_0000,
            ay < 0x1_0000_0000,
    ;
    assert(ax * ax == dx * dx) by (nonlinear_arith)
        requires
            ax == dx || ax == -dx,
    ;
    assert(ay * ay == dy * dy) by (nonlinear_arith)
        requires
            ay == dy || ay == -dy,
    ;
    ax * ax + ay * ay
}

/// `magnitude` times the unit vector from `from` to `to`, each component
/// rounded toward zero against the integer length; zero when the points coincide.
pub open spec fn scaled_direction(from: Vec2, to: Vec2, magnitude: int, len: int) -> Vec2 {
    if len == 0 {
        Vec2 { x: 0, y: 0 }
    } else {
        Vec2 {
            x: div_toward_zero((to.x - from.x) * magnitude, len) as i32,
            y: div_toward_zero((to.y - from.y) * magnitude, len) as i32,
        }
    }
}

/// `magnitude` along the direction from `from` to `to`, zero when they coincide.
pub fn direction_scaled(from: Vec2, to: Vec2, magnitude: i32) -> (r: Vec2)
    requires
        magnitude >= 0,
    ensures
        r == scaled_direction(
            from,
            to,
            magnitude as int,
            isqrt_of(distance_squared(from, to)),
        ),
        -magnitude <= r.x <= magnitude,
        -magnitude <= r.y <= magnitude,
{
    let n = squared_distance(from, to);
    let len = isqrt(n);
    proof {
        lemma_isqrt_unique(n as int, len as int);
    }
    if len == 0 {
        return Vec2::zero();
    }
    let dx: i64 = to.x as i64 - from.x as i64;
    let dy: i64 = to.y as i64 - from.y as i64;
    proof {
        lemma_component_within_length(dx as int, dy as int, len as int, magnitude as int);
        lemma_component_within_length(dy as int, dx as int, len as int, magnitude as int);
    }
    let x = divide_toward_zero(dx as i128 * magnitude as i128, len as i128);
    let y = divide_toward_zero(dy as i128 * magnitude as i128, len as i128);
    Vec2 { x: x as i32, y: y as i32 }
}

proof fn lemma_component_within_length(d: int, e: int, len: int, m: int)
    requires
        is_isqrt(d * d + e * e, len),
        len > 0,
        0 <= m <= i32::MAX,
        -0x1_0000_0000 <= d <= 0x1_0000_0000,
    ensures
        -m <= div_toward_zero(d * m, len) <= m,
        -0x1_0000_0000_0000_0000 <= d * m <= 0x1_0000_0000_0000_0000,
{
    assert(e * e >= 0) by (nonlinear_arith);
    let a = if d >= 0 { d } else { -d };
    assert(a * a == d * d) by (nonlinear_arith)
        requires
            a == d || a == -d,
    ;
    assert(a <= len) by (nonlinear_arith)
        requires
            a >= 0,
            len >= 0,
            a * a < (len + 1) * (len + 1),
    ;
    assert(a * m <= len * m) by (nonlinear_arith)
        requires
            0 <= a <= len,
            m >= 0,
    ;
    assert((a * m) / len <= m) by (nonlinear_arith)
        requires
            0 <= a * m <= len * m,
            len > 0,
    ;
    assert(a * m >= 0) by (nonlinear_arith)
        requires
            a >= 0,
            m >= 0,
    ;
    assert(-0x1_0000_0000_0000_0000 <= d * m <= 0x1_0000_0000_0000_0000) by (nonlinear_arith)
        requires
            -0x1_0000_0000 <= d <= 0x1_0000_0000,
            0 <= m <= 0x8000_0000,
    ;
    if d >= 0 {
        assert(d * m == a * m);
    } else {
        assert(-(d * m) == a * m) by (nonlinear_arith)
            requires
                a == -d,
        ;
    }
}

} // verus!
