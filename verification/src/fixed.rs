//! Exact fixed-point arithmetic with a fixed denominator of one million.
//!
//! Every continuous quantity in the library (pixel coordinates, camera
//! translation and scale, frame time in seconds) is an [`Fx`]: an `i64`
//! numerator over the implicit denominator [`SCALE`].  Multiplication and
//! division truncate toward zero, and every operation's result is stated
//! exactly in its contract via the spec function [`tdiv`].

use vstd::prelude::*;
use vstd::arithmetic::div_mod::{
    lemma_div_is_ordered, lemma_div_multiples_vanish, lemma_div_nonincreasing,
    lemma_div_pos_is_pos,
};
use vstd::arithmetic::mul::{lemma_mul_inequality, lemma_mul_nonnegative};

verus! {

/// The implicit denominator of every `Fx` value: one unit is `SCALE` raw steps.
pub const SCALE: i64 = 1_000_000;

/// Truncating (round-toward-zero) division, the semantics of machine integer
/// division, in contrast to the Euclidean `/` of spec arithmetic.
/// Meaningful for positive divisors only.
pub open spec fn tdiv(x: int, d: int) -> int
    recommends
        d > 0,
{
    if x >= 0 {
        x / d
    } else {
        -((-x) / d)
    }
}

/// The raw value of the fixed-point product `a * b` (raw inputs, raw result).
pub open spec fn fx_mul_raw(a: int, b: int) -> int {
    tdiv(a * b, 1_000_000)
}

/// The raw value of the fixed-point quotient `a / b` (raw inputs, raw result).
pub open spec fn fx_div_raw(a: int, b: int) -> int
    recommends
        b > 0,
{
    tdiv(a * 1_000_000, b)
}

/// A fixed-point number: the rational `raw / SCALE`.
#[derive(Clone, Copy, PartialEq, Eq, Structural, Debug)]
pub struct Fx {
    pub raw: i64,
}

/// A triple of fixed-point numbers: a translation, a scale, or a velocity.
#[derive(Clone, Copy, PartialEq, Eq, Structural, Debug)]
pub struct Fx3 {
    pub x: Fx,
    pub y: Fx,
    pub z: Fx,
}

proof fn lemma_i64_product_fits(a: int, b: int)
    requires
        -0x8000_0000_0000_0000 <= a <= 0x7FFF_FFFF_FFFF_FFFF,
        -0x8000_0000_0000_0000 <= b <= 0x7FFF_FFFF_FFFF_FFFF,
    ensures
        -0x4000_0000_0000_0000_0000_0000_0000_0000 <= a * b
            <= 0x4000_0000_0000_0000_0000_0000_0000_0000,
{
    assert(-0x4000_0000_0000_0000_0000_0000_0000_0000 <= a * b
        <= 0x4000_0000_0000_0000_0000_0000_0000_0000) by (nonlinear_arith)
        requires
            -0x8000_0000_0000_0000 <= a <= 0x7FFF_FFFF_FFFF_FFFF,
            -0x8000_0000_0000_0000 <= b <= 0x7FFF_FFFF_FFFF_FFFF,
    ;
}

/// Truncating division shrinks magnitude and keeps sign: for a positive
/// divisor, `tdiv(x, d)` lies between `0` and `x`.
pub proof fn lemma_tdiv_between_zero_and_x(x: int, d: int)
    requires
        d > 0,
    ensures
        x >= 0 ==> 0 <= tdiv(x, d) <= x,
        x < 0 ==> x <= tdiv(x, d) <= 0,
{
    if x >= 0 {
        lemma_div_pos_is_pos(x, d);
        lemma_div_nonincreasing(x, d);
    } else {
        lemma_div_pos_is_pos(-x, d);
        lemma_div_nonincreasing(-x, d);
    }
}

/// One frame of the proportional follow filter on one axis, in raw values:
/// the velocity is `2 * (target - cur)` and the position advances by
/// `velocity * dt` in exact fixed-point arithmetic.
pub open spec fn step_toward(cur: int, target: int, dt: int) -> int
    recommends
        0 <= dt,
{
    cur + tdiv(2 * (target - cur) * dt, 1_000_000)
}

/// The follow step never overshoots: as long as one frame covers at most
/// half of the filter's time constant (`2 * dt <= 1` second), the stepped
/// value stays between the current value and the target.
pub proof fn lemma_step_between(cur: int, target: int, dt: int)
    requires
        0 <= dt <= 500_000,
    ensures
        cur <= target ==> cur <= step_toward(cur, target, dt) <= target,
        target <= cur ==> target <= step_toward(cur, target, dt) <= cur,
{
    let d = target - cur;
    let p = 2 * d * dt;
    if d >= 0 {
        assert(2 * d * dt == (2 * dt) * d) by (nonlinear_arith);
        lemma_mul_nonnegative(2 * dt, d);
        lemma_mul_inequality(2 * dt, 1_000_000, d);
        assert(p <= 1_000_000 * d);
        lemma_div_is_ordered(p, 1_000_000 * d, 1_000_000);
        lemma_div_multiples_vanish(d, 1_000_000);
        lemma_div_pos_is_pos(p, 1_000_000);
        assert(0 <= p / 1_000_000 <= d);
        assert(tdiv(p, 1_000_000) == p / 1_000_000);
    } else {
        let m = -d;
        assert(-(2 * d * dt) == (2 * dt) * -d) by (nonlinear_arith);
        lemma_mul_nonnegative(2 * dt, m);
        lemma_mul_inequality(2 * dt, 1_000_000, m);
        assert(-p <= 1_000_000 * m);
        lemma_div_is_ordered(-p, 1_000_000 * m, 1_000_000);
        lemma_div_multiples_vanish(m, 1_000_000);
        lemma_div_pos_is_pos(-p, 1_000_000);
        assert(0 <= (-p) / 1_000_000 <= m);
        assert(tdiv(p, 1_000_000) == -((-p) / 1_000_000));
    }
}

impl Fx {
    /// The fixed-point number with the given raw numerator.
    pub fn from_raw(raw: i64) -> (r: Fx)
        ensures
            r.raw == raw,
    {
        Fx { raw }
    }

    /// The fixed-point number equal to the integer `units`.
    pub fn from_units(units: i64) -> (r: Fx)
        requires
            i64::MIN <= units * 1_000_000 <= i64::MAX,
        ensures
            r.raw == units * 1_000_000,
    {
        proof {
            lemma_i64_product_fits(units as int, 1_000_000);
        }
        let w: i128 = (units as i128) * 1_000_000i128;
        Fx { raw: w as i64 }
    }

    /// Zero.
    pub fn zero() -> (r: Fx)
        ensures
            r.raw == 0,
    {
        Fx { raw: 0 }
    }

    /// Exact fixed-point addition.
    pub fn add(self, rhs: Fx) -> (r: Fx)
        requires
            i64::MIN <= self.raw + rhs.raw <= i64::MAX,
        ensures
            r.raw == self.raw + rhs.raw,
    {
        Fx { raw: self.raw + rhs.raw }
    }

    /// Exact fixed-point subtraction.
    pub fn sub(self, rhs: Fx) -> (r: Fx)
        requires
            i64::MIN <= self.raw - rhs.raw <= i64::MAX,
        ensures
            r.raw == self.raw - rhs.raw,
    {
        Fx { raw: self.raw - rhs.raw }
    }

    /// Fixed-point multiplication, truncating toward zero.
    pub fn mul(self, rhs: Fx) -> (r: Fx)
        requires
            i64::MIN <= fx_mul_raw(self.raw as int, rhs.raw as int) <= i64::MAX,
        ensures
            r.raw == fx_mul_raw(self.raw as int, rhs.raw as int),
    {
        proof {
            lemma_i64_product_fits(self.raw as int, rhs.raw as int);
        }
        let p: i128 = (self.raw as i128) * (rhs.raw as i128);
        let q_opt: Option<i128> = p.checked_div(1_000_000i128);
        proof {
            lemma_tdiv_between_zero_and_x(p as int, 1_000_000);
            assert(q_opt is Some);
            assert(q_opt->0 == tdiv(p as int, 1_000_000));
        }
        let q: i128 = q_opt.unwrap();
        Fx { raw: q as i64 }
    }

    /// Fixed-point division by a positive divisor, truncating toward zero.
    pub fn div_pos(self, rhs: Fx) -> (r: Fx)
        requires
            rhs.raw > 0,
            i64::MIN <= fx_div_raw(self.raw as int, rhs.raw as int) <= i64::MAX,
        ensures
            r.raw == fx_div_raw(self.raw as int, rhs.raw as int),
    {
        proof {
            lemma_i64_product_fits(self.raw as int, 1_000_000);
        }
        let p: i128 = (self.raw as i128) * 1_000_000i128;
        let q_opt: Option<i128> = p.checked_div(rhs.raw as i128);
        proof {
            lemma_tdiv_between_zero_and_x(p as int, rhs.raw as int);
            assert(q_opt is Some);
            assert(q_opt->0 == tdiv(p as int, rhs.raw as int));
        }
        let q: i128 = q_opt.unwrap();
        Fx { raw: q as i64 }
    }
}

impl Fx3 {
    /// The zero vector.
    pub fn zero() -> (r: Fx3)
        ensures
            r.x.raw == 0,
            r.y.raw == 0,
            r.z.raw == 0,
    {
        Fx3 { x: Fx::zero(), y: Fx::zero(), z: Fx::zero() }
    }

    /// The vector with the given components.
    pub fn new(x: Fx, y: Fx, z: Fx) -> (r: Fx3)
        ensures
            r.x == x,
            r.y == y,
            r.z == z,
    {
        Fx3 { x, y, z }
    }

    /// The vector with every component equal to `v`.
    pub fn splat(v: Fx) -> (r: Fx3)
        ensures
            r.x == v,
            r.y == v,
            r.z == v,
    {
        Fx3 { x: v, y: v, z: v }
    }
}

} // verus!
