//! Fixed-point circle functions.
//!
//! Angles are fractions of a full turn in 1/2^32 units (so a `u32` spans
//! exactly one turn), results are signed Q30 fixed-point values (`ONE_Q30`
//! stands for 1). The kernel evaluates truncated Taylor series on an
//! eighth of a turn; symmetry extends it to the full circle. All
//! arithmetic is integer arithmetic, so results are reproducible exactly
//! and every intermediate value is proved to stay in range.

use vstd::arithmetic::div_mod::{
    lemma_div_by_multiple, lemma_div_is_ordered, lemma_div_is_ordered_by_denominator,
    lemma_div_pos_is_pos,
};
use vstd::arithmetic::mul::{lemma_mul_inequality, lemma_mul_nonnegative, lemma_mul_upper_bound};
use vstd::prelude::*;

verus! {

/// The Q30 fixed-point representation of 1.
pub const ONE_Q30: i32 = 0x4000_0000;

/// A quarter of a turn, in 1/2^32-turn angle units.
pub const QUARTER_TURN: u32 = 0x4000_0000;

/// An eighth of a turn, in 1/2^32-turn angle units.
pub const EIGHTH_TURN: u32 = 0x2000_0000;

/// pi/2 in Q30, rounded to the nearest integer: the factor that converts
/// a Q30 fraction of a quarter turn into Q30 radians.
pub const HALF_PI_Q30: u64 = 1686629713;

/// `a * b / d`, bounded above by the same expression on bounds of `a` and
/// `b`; the building block for the range proofs below.
proof fn lemma_mul_div_le(a: int, am: int, b: int, bm: int, d: int)
    requires
        0 <= a <= am,
        0 <= b <= bm,
        0 < d,
    ensures
        0 <= a * b / d <= am * bm / d,
{
    lemma_mul_upper_bound(a, am, b, bm);
    lemma_mul_nonnegative(a, b);
    lemma_div_pos_is_pos(a * b, d);
    lemma_div_is_ordered(a * b, am * bm, d);
}

/// `a * b / d <= a` whenever `b <= d`.
proof fn lemma_mul_div_shrinks(a: int, b: int, d: int)
    requires
        0 <= a,
        0 <= b <= d,
        0 < d,
    ensures
        0 <= a * b / d <= a,
{
    lemma_mul_inequality(b, d, a);
    assert(b * a == a * b) by (nonlinear_arith);
    assert(d * a == a * d) by (nonlinear_arith);
    lemma_mul_nonnegative(a, b);
    lemma_div_pos_is_pos(a * b, d);
    lemma_div_is_ordered(a * b, a * d, d);
    lemma_div_by_multiple(a, d);
}

/// Scaling a nonnegative length by a Q30 fraction of at most 1 keeps it
/// nonnegative and does not lengthen it.
pub proof fn lemma_scale_by_unit_fraction(r: int, f: int)
    requires
        0 <= r,
        0 <= f <= ONE_Q30 as int,
    ensures
        0 <= r * f / (ONE_Q30 as int) <= r,
{
    lemma_mul_div_shrinks(r, f, ONE_Q30 as int);
}

/// Q30 radians for a Q30 fraction `x` of a quarter turn.
pub open spec fn spec_kernel_z(x: int) -> int {
    x * (HALF_PI_Q30 as int) / (ONE_Q30 as int)
}

/// Taylor cosine in Q30 of `spec_kernel_z(x)` radians (`x` at most an
/// eighth-turn fraction, i.e. 2^29).
pub open spec fn spec_kernel_cos(x: int) -> int {
    let z = spec_kernel_z(x);
    let z2 = z * z / (ONE_Q30 as int);
    let z4 = z2 * z2 / (ONE_Q30 as int);
    let z6 = z4 * z2 / (ONE_Q30 as int);
    (ONE_Q30 as int) + z4 / 24 - z2 / 2 - z6 / 720
}

/// Taylor sine in Q30 of `spec_kernel_z(x)` radians.
pub open spec fn spec_kernel_sin(x: int) -> int {
    let z = spec_kernel_z(x);
    let z2 = z * z / (ONE_Q30 as int);
    let z4 = z2 * z2 / (ONE_Q30 as int);
    z + z * z4 / (ONE_Q30 as int) / 120 - z * z2 / (ONE_Q30 as int) / 6
}

/// Cosine and sine within a quarter turn: `x` is a Q30 fraction of a
/// quarter turn; beyond an eighth of a turn the complementary angle is
/// used, mirroring the pair.
pub open spec fn spec_quarter_cos(x: int) -> int {
    if x <= EIGHTH_TURN as int {
        spec_kernel_cos(x)
    } else {
        spec_kernel_sin(QUARTER_TURN as int - x)
    }
}

pub open spec fn spec_quarter_sin(x: int) -> int {
    if x <= EIGHTH_TURN as int {
        spec_kernel_sin(x)
    } else {
        spec_kernel_cos(QUARTER_TURN as int - x)
    }
}

/// Cosine in Q30 of `t` 1/2^32-turn units.
pub open spec fn spec_cos_turn(t: int) -> int {
    let q = t / (QUARTER_TURN as int);
    let x = t % (QUARTER_TURN as int);
    if q == 0 {
        spec_quarter_cos(x)
    } else if q == 1 {
        -spec_quarter_sin(x)
    } else if q == 2 {
        -spec_quarter_cos(x)
    } else {
        spec_quarter_sin(x)
    }
}

/// Sine in Q30 of `t` 1/2^32-turn units.
pub open spec fn spec_sin_turn(t: int) -> int {
    let q = t / (QUARTER_TURN as int);
    let x = t % (QUARTER_TURN as int);
    if q == 0 {
        spec_quarter_sin(x)
    } else if q == 1 {
        spec_quarter_cos(x)
    } else if q == 2 {
        -spec_quarter_sin(x)
    } else {
        -spec_quarter_cos(x)
    }
}

/// The kernel cosine stays well above zero on its whole domain: the
/// subtracted series terms never reach a third of 1.
pub proof fn lemma_kernel_cos_positive(x: int)
    requires
        0 <= x <= EIGHTH_TURN as int,
    ensures
        742222824 <= spec_kernel_cos(x),
{
    let one = ONE_Q30 as int;
    let z = spec_kernel_z(x);
    lemma_mul_div_le(x, EIGHTH_TURN as int, HALF_PI_Q30 as int, HALF_PI_Q30 as int, one);
    assert(0 <= z <= 843314856);
    let z2 = z * z / one;
    lemma_mul_div_le(z, 843314856, z, 843314856, one);
    assert(0 <= z2 <= 662337938);
    let z4 = z2 * z2 / one;
    lemma_mul_div_le(z2, 662337938, z2, 662337938, one);
    assert(0 <= z4 <= 408563338);
    let z6 = z4 * z2 / one;
    lemma_mul_div_le(z4, 408563338, z2, 662337938, one);
    assert(0 <= z6 <= 252022406);
    lemma_div_pos_is_pos(z4, 24);
    lemma_div_is_ordered(z2, 662337938, 2);
    lemma_div_is_ordered(z6, 252022406, 720);
}

/// The kernel sine is at least one unit as soon as the angle is: the
/// linear term dominates the subtracted cubic one.
pub proof fn lemma_kernel_sin_positive(x: int)
    requires
        1 <= x <= EIGHTH_TURN as int,
    ensures
        1 <= spec_kernel_sin(x),
{
    let one = ONE_Q30 as int;
    let z = spec_kernel_z(x);
    lemma_mul_div_le(x, EIGHTH_TURN as int, HALF_PI_Q30 as int, HALF_PI_Q30 as int, one);
    assert(0 <= z <= 843314856);
    // z >= x, because the conversion factor is at least 1 in Q30
    lemma_mul_inequality(one, HALF_PI_Q30 as int, x);
    assert(one * x == x * one) by (nonlinear_arith);
    assert((HALF_PI_Q30 as int) * x == x * (HALF_PI_Q30 as int)) by (nonlinear_arith);
    lemma_div_by_multiple(x, one);
    lemma_div_is_ordered(x * one, x * (HALF_PI_Q30 as int), one);
    assert(x <= z);
    let z2 = z * z / one;
    lemma_mul_div_le(z, 843314856, z, 843314856, one);
    assert(0 <= z2 <= 662337938);
    let z4 = z2 * z2 / one;
    lemma_mul_div_le(z2, 662337938, z2, 662337938, one);
    assert(0 <= z4);
    // the cubic term z*z2/one/6 stays strictly below z
    lemma_mul_div_shrinks(z, z2, one);
    let q = z * z2 / one;
    assert(0 <= q <= z);
    if q > 0 {
        vstd::arithmetic::div_mod::lemma_div_is_strictly_smaller(q, 6);
    } else {
        vstd::arithmetic::div_mod::lemma_div_of0(6);
    }
    assert(q / 6 <= z - 1);
    // the quintic term is nonnegative
    lemma_mul_div_shrinks(z, z4, one);
    lemma_div_pos_is_pos(z * z4 / one, 120);
}

/// Both circle functions are positive strictly inside the first quarter
/// turn.
pub proof fn lemma_first_quadrant_positive(t: int)
    requires
        1 <= t < QUARTER_TURN as int,
    ensures
        0 < spec_cos_turn(t),
        0 < spec_sin_turn(t),
{
    vstd::arithmetic::div_mod::lemma_basic_div(t, QUARTER_TURN as int);
    vstd::arithmetic::div_mod::lemma_small_mod(t as nat, QUARTER_TURN as nat);
    if t <= EIGHTH_TURN as int {
        lemma_kernel_cos_positive(t);
        lemma_kernel_sin_positive(t);
    } else {
        let y = QUARTER_TURN as int - t;
        lemma_kernel_sin_positive(y);
        lemma_kernel_cos_positive(y);
    }
}

/// Taylor kernel on an eighth of a turn: cosine and sine of
/// `x / 2^30` quarter turns, in Q30.
fn kernel(x: u32) -> (r: (i32, i32))
    requires
        x <= EIGHTH_TURN,
    ensures
        r.0 as int == spec_kernel_cos(x as int),
        r.1 as int == spec_kernel_sin(x as int),
        0 <= r.0 <= ONE_Q30,
        0 <= r.1 <= ONE_Q30,
{
    let one: u64 = ONE_Q30 as u64;
    proof {
        lemma_mul_div_le(x as int, EIGHTH_TURN as int, HALF_PI_Q30 as int, HALF_PI_Q30 as int,
            one as int);
    }
    let z: u64 = (x as u64) * HALF_PI_Q30 / one;
    assert(z <= 843314856);
    proof {
        lemma_mul_div_le(z as int, 843314856, z as int, 843314856, one as int);
    }
    let z2: u64 = z * z / one;
    assert(z2 <= 662337938);
    proof {
        lemma_mul_div_le(z2 as int, 662337938, z2 as int, 662337938, one as int);
        lemma_mul_div_shrinks(z2 as int, z2 as int, one as int);
    }
    let z4: u64 = z2 * z2 / one;
    assert(z4 <= 408563338);
    assert(z4 <= z2);
    proof {
        lemma_mul_div_le(z4 as int, 408563338, z2 as int, 662337938, one as int);
    }
    let z6: u64 = z4 * z2 / one;
    assert(z6 <= 252022406);

    // cosine: 1 + z^4/24 - z^2/2 - z^6/720, grouped so the subtraction
    // cannot underflow; z^4/24 <= z^2/2 keeps the result at most 1.
    proof {
        lemma_div_is_ordered(z4 as int, z2 as int, 24);
        lemma_div_is_ordered_by_denominator(z2 as int, 2, 24);
    }
    let cos_hi: u64 = one + z4 / 24;
    let cos_lo: u64 = z2 / 2 + z6 / 720;
    assert(cos_lo <= cos_hi);
    let c: u64 = cos_hi - cos_lo;
    assert(c <= one);

    // sine: z + z*z^4/2^30/120 - z*z^2/2^30/6; the subtracted term is at
    // most z, and the added term at most z/120, keeping the result in
    // [0, 1].
    proof {
        lemma_mul_div_shrinks(z as int, z2 as int, one as int);
        lemma_mul_div_shrinks(z as int, z4 as int, one as int);
        lemma_div_is_ordered_by_denominator(z as int, 6, 6);
        lemma_div_pos_is_pos(z as int, 6);
        lemma_div_is_ordered(z as int * z2 as int / one as int, z as int, 6);
        lemma_div_is_ordered(z as int * z4 as int / one as int, z as int, 120);
        lemma_div_is_ordered(z as int, 843314856, 120);
    }
    let w1: u64 = z * z2 / one / 6;
    let w2: u64 = z * z4 / one / 120;
    assert(w1 <= z);
    assert(w2 <= 7027623);
    let s: u64 = (z + w2) - w1;
    assert(s <= one);

    (c as i32, s as i32)
}

/// Cosine and sine, in Q30, of the angle `t` in 1/2^32-turn units.
/// Exactly the pair `(spec_cos_turn(t), spec_sin_turn(t))`, and each
/// component lies in `[-ONE_Q30, ONE_Q30]`.
pub fn cos_sin_turn(t: u32) -> (r: (i32, i32))
    ensures
        r.0 as int == spec_cos_turn(t as int),
        r.1 as int == spec_sin_turn(t as int),
        -ONE_Q30 <= r.0 <= ONE_Q30,
        -ONE_Q30 <= r.1 <= ONE_Q30,
{
    let q: u32 = t / QUARTER_TURN;
    let x: u32 = t % QUARTER_TURN;
    let (qc, qs): (i32, i32) = if x <= EIGHTH_TURN {
        kernel(x)
    } else {
        let k = kernel(QUARTER_TURN - x);
        (k.1, k.0)
    };
    assert(qc as int == spec_quarter_cos(x as int));
    assert(qs as int == spec_quarter_sin(x as int));
    if q == 0 {
        (qc, qs)
    } else if q == 1 {
        (-qs, qc)
    } else if q == 2 {
        (-qc, -qs)
    } else {
        assert(q == 3);
        (qs, -qc)
    }
}

} // verus!
