//! Fixed-point geometry of the playfield.
//!
//! Every length is a whole number of thousandths of a world unit, every
//! speed a whole number of thousandths per second, and every span of time a
//! whole number of microseconds. Nothing here rounds differently from one
//! machine to the next, so a run can be replayed exactly.
use vstd::prelude::*;

verus! {

/// Fixed-point steps in one world unit.
pub const UNIT: i32 = 1000;

/// Microseconds in one second.
pub const MICROS_PER_SECOND: i64 = 1_000_000;

/// The whole of a factor given in thousandths.
pub const PER_MILLE: i64 = 1000;

/// A length of `whole` units in fixed-point steps.
pub fn units(whole: i32) -> (steps: i32)
    requires
        -2_000_000 <= whole <= 2_000_000,
    ensures
        steps == whole * UNIT,
        steps == whole * 1000,
{
    assert(whole * UNIT == whole * 1000) by (nonlinear_arith)
        requires
            UNIT == 1000,
    ;
    whole * 1000
}

/// A length of `halves` half units in fixed-point steps.
pub fn half_units(halves: i32) -> (steps: i32)
    requires
        -2_000_000 <= halves <= 2_000_000,
    ensures
        steps == halves * (UNIT / 2),
        steps == halves * 500,
{
    assert(halves * (UNIT / 2) == halves * 500) by (nonlinear_arith)
        requires
            UNIT / 2 == 500,
    ;
    halves * 500
}

/// A point or a displacement in the plane.
#[derive(Clone, Copy, Debug, PartialEq, Eq, Structural)]
pub struct Vec2 {
    pub x: i32,
    pub y: i32,
}

impl Vec2 {
    /// The vector with the parts `x` and `y`.
    pub fn new(x: i32, y: i32) -> (v: Vec2)
        ensures
            v == (Vec2 { x, y }),
    {
        Vec2 { x, y }
    }

    /// The vector of no length.
    pub fn zero() -> (v: Vec2)
        ensures
            v == (Vec2 { x: 0, y: 0 }),
    {
        Vec2 { x: 0, y: 0 }
    }

    /// Whether both parts are zero.
    pub open spec fn spec_is_zero(&self) -> bool {
        self.x == 0 && self.y == 0
    }

    #[verifier::when_used_as_spec(spec_is_zero)]
    pub fn is_zero(&self) -> (b: bool)
        ensures
            b == self.spec_is_zero(),
    {
        self.x == 0 && self.y == 0
    }

    /// Square of the length, which needs no root to compare.
    pub open spec fn spec_length_squared(&self) -> int {
        self.x * self.x + self.y * self.y
    }

    /// Square of the length.
    pub fn length_squared(&self) -> (l: i128)
        ensures
            l == self.spec_length_squared(),
            0 <= l <= 0x8000_0000_0000_0000,
    {
        let x: i128 = self.x as i128;
        let y: i128 = self.y as i128;
        assert(-0x8000_0000 <= x < 0x8000_0000 && -0x8000_0000 <= y < 0x8000_0000);
        assert(0 <= x * x <= 0x4000_0000_0000_0000) by (nonlinear_arith)
            requires
                -0x8000_0000 <= x <= 0x8000_0000,
        ;
        assert(0 <= y * y <= 0x4000_0000_0000_0000) by (nonlinear_arith)
            requires
                -0x8000_0000 <= y <= 0x8000_0000,
        ;
        x * x + y * y
    }
}

/// Whether `root` is the whole part of the square root of `n`.
pub open spec fn is_root_of(root: int, n: int) -> bool {
    0 <= root && root * root <= n < (root + 1) * (root + 1)
}

/// The whole part of the square root of `n`.
pub open spec fn root_of(n: int) -> int {
    choose|root: int| is_root_of(root, n)
}

/// A number has at most one whole root.
pub proof fn lemma_root_is_unique(n: int, a: int, b: int)
    requires
        is_root_of(a, n),
        is_root_of(b, n),
    ensures
        a == b,
{
    if a < b {
        assert((a + 1) * (a + 1) <= b * b) by (nonlinear_arith)
            requires
                0 <= a,
                a + 1 <= b,
        ;
    }
    if b < a {
        assert((b + 1) * (b + 1) <= a * a) by (nonlinear_arith)
            requires
                0 <= b,
                b + 1 <= a,
        ;
    }
}

/// The whole part of the square root of `n`.
pub fn whole_root(n: u64) -> (root: u64)
    ensures
        root == root_of(n as int),
        is_root_of(root as int, n as int),
        root <= 0xffff_ffff,
{
    let mut low: u64 = 0;
    let mut high: u64 = 0x1_0000_0000;
    while high - low > 1
        invariant
            low < high <= 0x1_0000_0000,
            low * low <= n,
            n < high * high,
        decreases high - low,
    {
        let mid: u64 = low + (high - low) / 2;
        assert(mid * mid <= 0xffff_ffff * 0xffff_ffff) by (nonlinear_arith)
            requires
                0 <= mid <= 0xffff_ffff,
        ;
        if mid * mid <= n {
            low = mid;
        } else {
            high = mid;
        }
    }
    proof {
        assert(is_root_of(low as int, n as int));
        lemma_root_is_unique(n as int, low as int, root_of(n as int));
    }
    low
}

/// One part of a vector that points the way of `(x, y)` and is `length`
/// long: the part `x` stretched by `length` over the whole root of the
/// squared length of `(x, y)`, rounded toward zero.
pub open spec fn stretch(x: int, y: int, length: int) -> int {
    trunc_div(x * length, root_of(x * x + y * y))
}

/// The vector that points the way of `(x, y)` and is `length` long.
pub open spec fn stretch_to(v: Vec2, length: int) -> Vec2 {
    Vec2 {
        x: clamp_i32(stretch(v.x as int, v.y as int, length)) as i32,
        y: clamp_i32(stretch(v.y as int, v.x as int, length)) as i32,
    }
}

/// The vector that points the way of `v` and is `length` long.
pub fn stretched_to(v: Vec2, length: i32) -> (r: Vec2)
    requires
        !v.is_zero(),
    ensures
        r == stretch_to(v, length as int),
{
    let squared: i128 = v.length_squared();
    assert(v.x as int * v.x as int + v.y as int * v.y as int >= 1) by (nonlinear_arith)
        requires
            v.x != 0 || v.y != 0,
    ;
    let root: u64 = whole_root(squared as u64);
    assert(root >= 1) by (nonlinear_arith)
        requires
            squared >= 1,
            is_root_of(root as int, squared as int),
    {
        if root == 0 {
            assert((root + 1) * (root + 1) == 1);
        }
    }
    assert(v.y as int * v.y as int + v.x as int * v.x as int == squared);
    let x: i128 = v.x as i128;
    let y: i128 = v.y as i128;
    let l: i128 = length as i128;
    assert(-0x4000_0000_0000_0000 <= x * l <= 0x4000_0000_0000_0000) by (nonlinear_arith)
        requires
            -0x8000_0000 <= x <= 0x8000_0000,
            -0x8000_0000 <= l <= 0x8000_0000,
    ;
    assert(-0x4000_0000_0000_0000 <= y * l <= 0x4000_0000_0000_0000) by (nonlinear_arith)
        requires
            -0x8000_0000 <= y <= 0x8000_0000,
            -0x8000_0000 <= l <= 0x8000_0000,
    ;
    proof {
        lemma_trunc_div_bounds(x * l, root as int);
        lemma_trunc_div_bounds(y * l, root as int);
    }
    let rx: i128 = (x * l) / (root as i128);
    let ry: i128 = (y * l) / (root as i128);
    Vec2 { x: saturate(rx as i64), y: saturate(ry as i64) }
}

/// Which way something looks along the horizontal axis.
#[derive(Clone, Copy, Debug, PartialEq, Eq, Structural)]
pub struct FacingDirection {
    pub is_right: bool,
}

impl FacingDirection {
    /// Whether it looks to the right.
    pub open spec fn spec_is_right(&self) -> bool {
        self.is_right
    }

    #[verifier::when_used_as_spec(spec_is_right)]
    pub fn is_right(&self) -> (b: bool)
        ensures
            b == self.is_right,
    {
        self.is_right
    }

    /// Whether it looks to the left.
    pub open spec fn spec_is_left(&self) -> bool {
        !self.is_right
    }

    #[verifier::when_used_as_spec(spec_is_left)]
    pub fn is_left(&self) -> (b: bool)
        ensures
            b == !self.is_right,
    {
        !self.is_right
    }
}

/// `v` brought into the range of a coordinate.
pub open spec fn clamp_i32(v: int) -> int {
    if v < i32::MIN {
        i32::MIN as int
    } else if v > i32::MAX {
        i32::MAX as int
    } else {
        v
    }
}

/// A coordinate from a wider value: values beyond the range of a coordinate
/// stop at its nearest end.
pub fn saturate(v: i64) -> (r: i32)
    ensures
        r == clamp_i32(v as int),
{
    if v < i32::MIN as i64 {
        i32::MIN
    } else if v > i32::MAX as i64 {
        i32::MAX
    } else {
        v as i32
    }
}

/// Quotient of `n` by a positive `d`, rounded toward zero.
pub open spec fn trunc_div(n: int, d: int) -> int
    recommends
        d > 0,
{
    if n >= 0 {
        n / d
    } else {
        -((-n) / d)
    }
}

/// The quotient rounded toward zero is no larger in size than the dividend.
pub proof fn lemma_trunc_div_bounds(n: int, d: int)
    requires
        d > 0,
    ensures
        n >= 0 ==> 0 <= trunc_div(n, d) <= n,
        n <= 0 ==> n <= trunc_div(n, d) <= 0,
{
    if n >= 0 {
        assert(0 <= n / d <= n) by (nonlinear_arith)
            requires
                n >= 0,
                d > 0,
        ;
    } else {
        let m = -n;
        assert(0 <= m / d <= m) by (nonlinear_arith)
            requires
                m >= 0,
                d > 0,
        ;
    }
}

/// Way covered in `dt` microseconds at `speed` thousandths per second,
/// rounded toward zero.
pub open spec fn displacement(speed: int, dt: int) -> int {
    trunc_div(speed * dt, MICROS_PER_SECOND as int)
}

/// Way covered in `dt` microseconds at `speed` thousandths per second.
pub fn travel(speed: i32, dt: u32) -> (d: i64)
    ensures
        d == displacement(speed as int, dt as int),
        speed >= 0 ==> d >= 0,
        speed <= 0 ==> d <= 0,
{
    let s: i64 = speed as i64;
    let t: i64 = dt as i64;
    assert(-0x8000_0000_0000_0000 < s * t < 0x8000_0000_0000_0000) by (nonlinear_arith)
        requires
            -0x8000_0000 <= s < 0x8000_0000,
            0 <= t < 0x1_0000_0000,
    ;
    assert(s >= 0 ==> s * t >= 0) by (nonlinear_arith)
        requires
            t >= 0,
    ;
    assert(s <= 0 ==> s * t <= 0) by (nonlinear_arith)
        requires
            t >= 0,
    ;
    proof {
        lemma_trunc_div_bounds(s * t, MICROS_PER_SECOND as int);
    }
    (s * t) / MICROS_PER_SECOND
}

/// Coordinate reached from `from` after `dt` microseconds at `speed`.
pub open spec fn advance(from: int, speed: int, dt: int) -> int {
    clamp_i32(from + displacement(speed, dt))
}

/// Coordinate reached from `from` after `dt` microseconds at `speed`.
pub fn advanced(from: i32, speed: i32, dt: u32) -> (to: i32)
    ensures
        to == advance(from as int, speed as int, dt as int),
{
    let d: i64 = travel(speed, dt);
    let wide: i128 = from as i128 + d as i128;
    if wide < i32::MIN as i128 {
        i32::MIN
    } else if wide > i32::MAX as i128 {
        i32::MAX
    } else {
        wide as i32
    }
}

/// The point reached from `from` after `dt` microseconds at `velocity`.
pub open spec fn advance_point(from: Vec2, velocity: Vec2, dt: int) -> Vec2 {
    Vec2 {
        x: advance(from.x as int, velocity.x as int, dt) as i32,
        y: advance(from.y as int, velocity.y as int, dt) as i32,
    }
}

/// The point reached from `from` after `dt` microseconds at `velocity`.
pub fn advanced_point(from: Vec2, velocity: Vec2, dt: u32) -> (to: Vec2)
    ensures
        to == advance_point(from, velocity, dt as int),
{
    Vec2 { x: advanced(from.x, velocity.x, dt), y: advanced(from.y, velocity.y, dt) }
}

/// Mix of `target` and `current`, weighted `factor` thousandths toward
/// `target`, rounded toward zero.
pub open spec fn blend(target: int, current: int, factor: int) -> int {
    trunc_div(factor * target + (PER_MILLE - factor) * current, PER_MILLE as int)
}

/// Mix of `target` and `current`, weighted `factor` thousandths toward
/// `target`.
pub fn blended(target: i32, current: i32, factor: u16) -> (r: i32)
    requires
        factor <= PER_MILLE,
    ensures
        r == clamp_i32(blend(target as int, current as int, factor as int)),
{
    let f: i64 = factor as i64;
    let t: i64 = target as i64;
    let c: i64 = current as i64;
    let g: i64 = PER_MILLE - f;
    assert(-0x4_0000_0000_0000 <= f * t <= 0x4_0000_0000_0000) by (nonlinear_arith)
        requires
            0 <= f <= 1000,
            -0x8000_0000 <= t < 0x8000_0000,
    ;
    assert(-0x4_0000_0000_0000 <= g * c <= 0x4_0000_0000_0000) by (nonlinear_arith)
        requires
            0 <= g <= 1000,
            -0x8000_0000 <= c < 0x8000_0000,
    ;
    saturate((f * t + g * c) / PER_MILLE)
}

/// `length` scaled by a factor given in millionths, rounded toward zero.
pub open spec fn scale_ppm(length: int, ppm: int) -> int {
    trunc_div(length * ppm, 1_000_000)
}

/// `length` scaled by a factor given in millionths, rounded toward zero.
pub fn scaled_ppm(length: i32, ppm: i64) -> (r: i64)
    requires
        -1_000_000 <= ppm <= 1_000_000,
    ensures
        r == scale_ppm(length as int, ppm as int),
        -0x8000_0000 <= r <= 0x8000_0000,
        length >= 0 && ppm >= 0 ==> 0 <= r <= length,
        length >= 0 && ppm <= 0 ==> -length <= r <= 0,
{
    let l: i64 = length as i64;
    assert(-0x8000_0000 * 1_000_000 <= l * ppm <= 0x8000_0000 * 1_000_000) by (nonlinear_arith)
        requires
            -0x8000_0000 <= l <= 0x8000_0000,
            -1_000_000 <= ppm <= 1_000_000,
    ;
    assert(l >= 0 && ppm >= 0 ==> 0 <= l * ppm <= l * 1_000_000) by (nonlinear_arith)
        requires
            ppm <= 1_000_000,
    ;
    assert(l >= 0 && ppm <= 0 ==> -(l * 1_000_000) <= l * ppm <= 0) by (nonlinear_arith)
        requires
            -1_000_000 <= ppm,
    ;
    (l * ppm) / 1_000_000
}

} // verus!
