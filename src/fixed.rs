//! Fixed-point scalars and vectors.

use vstd::prelude::*;

verus! {

/// Fixed-point counts per unit.
pub const SCALE: i64 = 1000;

/// Largest magnitude of a coordinate, speed or configuration value that the
/// steps accept: a million units.
pub const LIMIT: i64 = 1_000_000_000;

/// Quotient rounded toward zero, as integer division on machine integers does.
pub open spec fn div_toward_zero(a: int, b: int) -> int {
    if a >= 0 {
        a / b
    } else {
        -((-a) / b)
    }
}

/// Divides rounding toward zero.
pub fn div_trunc(a: i64, b: i64) -> (q: i64)
    requires
        b > 0,
        a > i64::MIN,
    ensures
        q == div_toward_zero(a as int, b as int),
{
    if a >= 0 {
        a / b
    } else {
        -((-a) / b)
    }
}

/// A product of bounded factors is bounded by the product of the bounds.
pub proof fn lemma_mul_bound(a: int, b: int, ba: int, bb: int)
    requires
        -ba <= a <= ba,
        -bb <= b <= bb,
    ensures
        -(ba * bb) <= a * b <= ba * bb,
        0 <= a * a <= ba * ba,
{
    assert(-(ba * bb) <= a * b <= ba * bb) by (nonlinear_arith)
        requires
            -ba <= a <= ba,
            -bb <= b <= bb,
    ;
    assert(0 <= a * a <= ba * ba) by (nonlinear_arith)
        requires
            -ba <= a <= ba,
    ;
}

/// Exclusive bound on the floor square root of any `u64`: two to the 32nd.
pub const ROOT_BOUND: u64 = 4_294_967_296;

/// Whether `r` is the floor square root of `n`.
pub open spec fn is_floor_sqrt(r: int, n: int) -> bool {
    0 <= r && r * r <= n < (r + 1) * (r + 1)
}

/// The floor square root of a non-negative `n`.
pub open spec fn floor_sqrt(n: int) -> int {
    choose|r: int| is_floor_sqrt(r, n)
}

/// A non-negative number has one floor square root.
pub proof fn lemma_floor_sqrt_unique(r: int, s: int, n: int)
    requires
        is_floor_sqrt(r, n),
        is_floor_sqrt(s, n),
    ensures
        r == s,
{
    if r < s {
        assert((r + 1) * (r + 1) <= s * s) by (nonlinear_arith)
            requires
                0 <= r,
                r + 1 <= s,
        ;
    } else if s < r {
        assert((s + 1) * (s + 1) <= r * r) by (nonlinear_arith)
            requires
                0 <= s,
                s + 1 <= r,
        ;
    }
}

/// Computes the floor square root by bisection.
pub fn isqrt(n: u64) -> (r: u64)
    ensures
        r == floor_sqrt(n as int),
        is_floor_sqrt(r as int, n as int),
{
    let mut lo: u64 = 0;
    let mut hi: u64 = ROOT_BOUND;
    assert(n < hi * hi) by (nonlinear_arith)
        requires
            hi == ROOT_BOUND,
            n <= u64::MAX,
    ;
    while hi - lo > 1
        invariant
            lo < hi <= ROOT_BOUND,
            lo * lo <= n,
            n < hi * hi,
        decreases hi - lo,
    {
        let mid: u64 = lo + (hi - lo) / 2;
        assert(mid * mid <= u64::MAX) by (nonlinear_arith)
            requires
                mid < ROOT_BOUND,
                ROOT_BOUND == 4_294_967_296u64,
        ;
        if mid * mid <= n {
            lo = mid;
        } else {
            hi = mid;
        }
    }
    proof {
        assert(hi == lo + 1);
        assert(is_floor_sqrt(lo as int, n as int));
        lemma_floor_sqrt_unique(lo as int, floor_sqrt(n as int), n as int);
    }
    lo
}

/// A vector of thousandths.
#[derive(Clone, Copy, Debug, PartialEq, Eq, Structural)]
pub struct Vec3 {
    pub x: i64,
    pub y: i64,
    pub z: i64,
}

impl Vec3 {
    pub open spec fn is_zero_spec(self) -> bool {
        self.x == 0 && self.y == 0 && self.z == 0
    }

    /// Every component lies within `LIMIT`.
    pub open spec fn in_range(self) -> bool {
        -LIMIT <= self.x <= LIMIT && -LIMIT <= self.y <= LIMIT && -LIMIT <= self.z <= LIMIT
    }

    /// The vector with its vertical component zeroed.
    pub open spec fn flat_spec(self) -> Vec3 {
        Vec3 { x: self.x, y: 0, z: self.z }
    }

    /// Squared length, in millionths.
    pub open spec fn length_squared(self) -> int {
        self.x * self.x + self.y * self.y + self.z * self.z
    }

    /// Length rounded down, in thousandths.
    pub open spec fn length_floor(self) -> int {
        floor_sqrt(self.length_squared())
    }

    pub fn new(x: i64, y: i64, z: i64) -> (v: Vec3)
        ensures
            v == (Vec3 { x, y, z }),
    {
        Vec3 { x, y, z }
    }

    pub fn zero() -> (v: Vec3)
        ensures
            v.is_zero_spec(),
    {
        Vec3 { x: 0, y: 0, z: 0 }
    }

    pub fn is_zero(&self) -> (r: bool)
        ensures
            r == self.is_zero_spec(),
    {
        self.x == 0 && self.y == 0 && self.z == 0
    }

    pub fn flat(&self) -> (v: Vec3)
        ensures
            v == self.flat_spec(),
    {
        Vec3 { x: self.x, y: 0, z: self.z }
    }

    /// Length rounded down; zero exactly for the zero vector.
    pub fn length(&self) -> (r: i64)
        requires
            self.in_range(),
        ensures
            r == self.length_floor(),
            r == 0 <==> self.is_zero_spec(),
            0 <= r,
    {
        proof {
            lemma_mul_bound(self.x as int, self.x as int, LIMIT as int, LIMIT as int);
            lemma_mul_bound(self.y as int, self.y as int, LIMIT as int, LIMIT as int);
            lemma_mul_bound(self.z as int, self.z as int, LIMIT as int, LIMIT as int);
        }
        let xx = self.x * self.x;
        let yy = self.y * self.y;
        let zz = self.z * self.z;
        let sum = (xx + yy + zz) as u64;
        let r = isqrt(sum);
        proof {
            assert(sum == xx + yy + zz);
            assert(r < ROOT_BOUND) by (nonlinear_arith)
                requires
                    r * r <= sum,
                    sum <= u64::MAX,
                    ROOT_BOUND == 4_294_967_296u64,
            ;
            if self.is_zero_spec() {
                assert(xx == 0 && yy == 0 && zz == 0) by (nonlinear_arith)
                    requires
                        xx == self.x * self.x,
                        yy == self.y * self.y,
                        zz == self.z * self.z,
                        self.x == 0 && self.y == 0 && self.z == 0,
                ;
                assert(r == 0) by (nonlinear_arith)
                    requires
                        r * r <= sum,
                        sum == 0,
                ;
            } else {
                assert(xx + yy + zz >= 1) by (nonlinear_arith)
                    requires
                        xx == self.x * self.x,
                        yy == self.y * self.y,
                        zz == self.z * self.z,
                        !(self.x == 0 && self.y == 0 && self.z == 0),
                ;
                assert(r != 0) by (nonlinear_arith)
                    requires
                        sum < (r + 1) * (r + 1),
                        sum >= 1,
                ;
            }
        }
        r as i64
    }
}

} // verus!
