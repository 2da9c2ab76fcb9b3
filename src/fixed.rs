//! Fixed-point helpers: truncating division, integer square root, clamping
//! and three-component vectors.
use vstd::prelude::*;

verus! {

/// One unit (a metre, a metre per second, a whole direction) in fixed point.
pub const SCALE: i64 = 1000;

/// Largest magnitude of a velocity component, in millimetres per second.
pub const VEL_BOUND: i64 = 1_000_000;

/// Largest magnitude of a position component, in millimetres.
pub const POS_BOUND: i64 = 1_000_000_000_000;

/// Largest magnitude of an orientation or direction component.
pub const DIR_BOUND: i64 = 1_000_000;

/// Largest argument accepted by `isqrt`.
pub const ISQRT_MAX: u64 = 4_000_000_000_000;

/// Division that truncates toward zero, as Rust's integer division does.
pub open spec fn tdiv(a: int, b: int) -> int {
    if a >= 0 {
        a / b
    } else {
        -((-a) / b)
    }
}

pub open spec fn abs(a: int) -> int {
    if a >= 0 {
        a
    } else {
        -a
    }
}

pub open spec fn clamp_spec(a: int, bound: int) -> int {
    if a > bound {
        bound
    } else if a < -bound {
        -bound
    } else {
        a
    }
}

pub open spec fn min_spec(a: int, b: int) -> int {
    if a <= b {
        a
    } else {
        b
    }
}

pub open spec fn max_spec(a: int, b: int) -> int {
    if a >= b {
        a
    } else {
        b
    }
}

/// Whether `r` is the integer square root of `n`.
pub open spec fn is_isqrt(n: int, r: int) -> bool {
    0 <= r && r * r <= n && n < (r + 1) * (r + 1)
}

/// The integer square root of a non-negative `n`.
pub open spec fn isqrt_spec(n: int) -> int {
    choose|r: int| is_isqrt(n, r)
}

/// The integer square root is unique.
pub proof fn lemma_isqrt_unique(n: int, r: int)
    requires
        is_isqrt(n, r),
    ensures
        isqrt_spec(n) == r,
{
    let s = isqrt_spec(n);
    assert(is_isqrt(n, s));
    if s < r {
        assert((s + 1) * (s + 1) <= r * r) by (nonlinear_arith)
            requires 0 <= s, s + 1 <= r;
    } else if r < s {
        assert((r + 1) * (r + 1) <= s * s) by (nonlinear_arith)
            requires 0 <= r, r + 1 <= s;
    }
}

pub fn tdiv_exec(a: i64, b: i64) -> (r: i64)
    requires
        b > 0,
        a > i64::MIN,
    ensures
        r == tdiv(a as int, b as int),
{
    if a >= 0 {
        a / b
    } else {
        -((-a) / b)
    }
}

pub fn clamp(a: i64, bound: i64) -> (r: i64)
    requires
        bound >= 0,
    ensures
        r == clamp_spec(a as int, bound as int),
{
    if a > bound {
        bound
    } else if a < -bound {
        -bound
    } else {
        a
    }
}

/// The integer square root, by bisection.
pub fn isqrt(n: u64) -> (r: u64)
    requires
        n <= ISQRT_MAX,
    ensures
        is_isqrt(n as int, r as int),
        r as int == isqrt_spec(n as int),
        r <= 2_000_000,
{
    let mut lo: u64 = 0;
    let mut hi: u64 = 2_000_001;
    assert(n < hi * hi);
    while hi - lo > 1
        invariant
            lo < hi <= 2_000_001,
            lo * lo <= n,
            n < hi * hi,
        decreases hi - lo,
    {
        let mid: u64 = lo + (hi - lo) / 2;
        assert(mid * mid <= 2_000_001 * 2_000_001) by (nonlinear_arith)
            requires mid <= 2_000_001;
        if mid * mid <= n {
            lo = mid;
        } else {
            hi = mid;
        }
    }
    assert(hi == lo + 1);
    proof {
        lemma_isqrt_unique(n as int, lo as int);
    }
    lo
}

/// Truncating division by a positive divisor never grows a magnitude and
/// keeps the sign.
pub proof fn lemma_tdiv_bounds(a: int, b: int)
    requires
        b > 0,
    ensures
        abs(tdiv(a, b)) <= abs(a),
        a >= 0 ==> 0 <= tdiv(a, b) <= a,
        a <= 0 ==> a <= tdiv(a, b) <= 0,
{
    if a >= 0 {
        assert(a / b <= a) by (nonlinear_arith)
            requires a >= 0, b > 0;
        assert(a / b >= 0) by (nonlinear_arith)
            requires a >= 0, b > 0;
    } else {
        assert((-a) / b <= -a) by (nonlinear_arith)
            requires -a >= 0, b > 0;
        assert((-a) / b >= 0) by (nonlinear_arith)
            requires -a >= 0, b > 0;
    }
}

/// A blend `x * f / 1000` with `0 <= f <= 1000` lies between zero and `x`.
pub proof fn lemma_blend_between(x: int, f: int)
    requires
        0 <= f <= 1000,
    ensures
        x >= 0 ==> 0 <= tdiv(x * f, 1000) <= x,
        x <= 0 ==> x <= tdiv(x * f, 1000) <= 0,
{
    if x >= 0 {
        assert(0 <= x * f <= x * 1000) by (nonlinear_arith)
            requires x >= 0, 0 <= f <= 1000;
        assert((x * f) / 1000 <= x) by (nonlinear_arith)
            requires 0 <= x * f <= x * 1000;
        lemma_tdiv_bounds(x * f, 1000);
    } else {
        assert(x * 1000 <= x * f <= 0) by (nonlinear_arith)
            requires x < 0, 0 <= f <= 1000;
        assert((-(x * f)) / 1000 <= -x) by (nonlinear_arith)
            requires 0 <= -(x * f) <= -x * 1000;
        lemma_tdiv_bounds(x * f, 1000);
    }
}

/// A vector of three fixed-point components.
#[derive(Debug, PartialEq, Eq, Structural, Clone, Copy)]
pub struct Vec3 {
    pub x: i64,
    pub y: i64,
    pub z: i64,
}

impl Vec3 {
    /// Every component has magnitude at most `bound`.
    pub open spec fn within(self, bound: int) -> bool {
        abs(self.x as int) <= bound && abs(self.y as int) <= bound && abs(self.z as int) <= bound
    }

    pub fn new(x: i64, y: i64, z: i64) -> (r: Vec3)
        ensures
            r == (Vec3 { x, y, z }),
    {
        Vec3 { x, y, z }
    }

    pub fn zero() -> (r: Vec3)
        ensures
            r == (Vec3 { x: 0, y: 0, z: 0 }),
    {
        Vec3 { x: 0, y: 0, z: 0 }
    }
}

/// The squared length of a vector whose components are within `DIR_BOUND`.
pub fn norm_sq3(x: i64, y: i64, z: i64) -> (r: u64)
    requires
        abs(x as int) <= DIR_BOUND,
        abs(y as int) <= DIR_BOUND,
        abs(z as int) <= DIR_BOUND,
    ensures
        r == x * x + y * y + z * z,
        r <= 3_000_000_000_000,
{
    assert(x * x <= 1_000_000_000_000) by (nonlinear_arith)
        requires abs(x as int) <= 1_000_000;
    assert(y * y <= 1_000_000_000_000) by (nonlinear_arith)
        requires abs(y as int) <= 1_000_000;
    assert(z * z <= 1_000_000_000_000) by (nonlinear_arith)
        requires abs(z as int) <= 1_000_000;
    assert(x * x >= 0 && y * y >= 0 && z * z >= 0) by (nonlinear_arith);
    (x * x + y * y + z * z) as u64
}

/// One component of a vector scaled to unit length: `c * 1000 / len`.
pub open spec fn unit_comp(c: int, len: int) -> int {
    if len == 0 {
        0
    } else {
        tdiv(c * SCALE, len)
    }
}

/// A vector scaled to unit length (in thousandths); the zero vector stays zero.
pub open spec fn unit_spec(x: int, y: int, z: int) -> (int, int, int) {
    let len = isqrt_spec(x * x + y * y + z * z);
    (unit_comp(x, len), unit_comp(y, len), unit_comp(z, len))
}

proof fn lemma_unit_comp_bound(c: int, n: int, len: int)
    requires
        c * c <= n,
        is_isqrt(n, len),
        len > 0,
        abs(c) <= DIR_BOUND,
    ensures
        abs(unit_comp(c, len)) <= SCALE,
{
    // |c| <= len because c * c <= n < (len + 1) * (len + 1)
    assert(abs(c) <= len) by (nonlinear_arith)
        requires c * c <= n, n < (len + 1) * (len + 1), len >= 0;
    if c >= 0 {
        assert((c * 1000) / len <= 1000) by (nonlinear_arith)
            requires 0 <= c <= len, len > 0;
        assert((c * 1000) / len >= 0) by (nonlinear_arith)
            requires 0 <= c, len > 0;
    } else {
        assert(((-c) * 1000) / len <= 1000) by (nonlinear_arith)
            requires 0 <= -c <= len, len > 0;
        assert(((-c) * 1000) / len >= 0) by (nonlinear_arith)
            requires 0 <= -c, len > 0;
        assert(-(c * 1000) == (-c) * 1000);
    }
}

/// Scales a vector to unit length; the zero vector stays zero.
pub fn unit(x: i64, y: i64, z: i64) -> (r: (i64, i64, i64))
    requires
        abs(x as int) <= DIR_BOUND,
        abs(y as int) <= DIR_BOUND,
        abs(z as int) <= DIR_BOUND,
    ensures
        (r.0 as int, r.1 as int, r.2 as int) == unit_spec(x as int, y as int, z as int),
        abs(r.0 as int) <= SCALE,
        abs(r.1 as int) <= SCALE,
        abs(r.2 as int) <= SCALE,
{
    let n = norm_sq3(x, y, z);
    let len = isqrt(n);
    if len == 0 {
        return (0, 0, 0);
    }
    let l = len as i64;
    assert(x * x >= 0 && y * y >= 0 && z * z >= 0) by (nonlinear_arith);
    proof {
        lemma_unit_comp_bound(x as int, n as int, l as int);
        lemma_unit_comp_bound(y as int, n as int, l as int);
        lemma_unit_comp_bound(z as int, n as int, l as int);
    }
    (tdiv_exec(x * SCALE, l), tdiv_exec(y * SCALE, l), tdiv_exec(z * SCALE, l))
}

} // verus!
