//! Q24 fixed-point sample arithmetic.
//!
//! A sample or coefficient is an `i64` carrying 24 fractional bits, so the
//! value `1.0` is `Q_ONE`.  Every stage of the reverb keeps its samples inside
//! `[-SAMPLE_MAX, SAMPLE_MAX]` by saturating, which makes each operation total
//! and exactly described by the spec functions below.

use vstd::prelude::*;

verus! {

/// One (1.0) in Q24 fixed point: 2^24.
pub const Q_ONE: i64 = 16777216;

/// Largest sample magnitude any stage produces (128.0 in Q24); the
/// saturating operations clip to `[-SAMPLE_MAX, SAMPLE_MAX]`.
pub const SAMPLE_MAX: i64 = 2147483648;

/// Largest coefficient magnitude the scaling ops accept (4.0 in Q24).
pub const COEF_MAX: i64 = 67108864;

/// Largest gain coefficient a filter stores (2.0 in Q24); it keeps both
/// `g` and `1 - g*g` within `COEF_MAX`.
pub const GAIN_MAX: i64 = 33554432;

pub open spec fn in_sample_range(v: i64) -> bool {
    -SAMPLE_MAX <= v <= SAMPLE_MAX
}

pub open spec fn in_coef_range(c: i64) -> bool {
    -COEF_MAX <= c <= COEF_MAX
}

pub open spec fn in_gain_range(g: i64) -> bool {
    -GAIN_MAX <= g <= GAIN_MAX
}

/// `x` limited to `[-bound, bound]`.
pub open spec fn clip(x: int, bound: int) -> int {
    if x > bound {
        bound
    } else if x < -bound {
        -bound
    } else {
        x
    }
}

/// The Q24 product `a * b / 2^24`, rounded toward zero.
pub open spec fn qmul(a: int, b: int) -> int {
    if a * b >= 0 {
        (a * b) / (Q_ONE as int)
    } else {
        -((-(a * b)) / (Q_ONE as int))
    }
}

/// `x / 2`, rounded toward zero.
pub open spec fn half(x: int) -> int {
    if x >= 0 {
        x / 2
    } else {
        -((-x) / 2)
    }
}

/// Saturating addition of two in-range samples.
pub fn sat_add(a: i64, b: i64) -> (r: i64)
    requires
        in_sample_range(a),
        in_sample_range(b),
    ensures
        r == clip(a + b, SAMPLE_MAX as int),
        in_sample_range(r),
{
    let s: i64 = a + b;
    if s > SAMPLE_MAX {
        SAMPLE_MAX
    } else if s < -SAMPLE_MAX {
        -SAMPLE_MAX
    } else {
        s
    }
}

/// Product of a sample and a coefficient, scaled by 2^-24 and saturated to
/// the sample range.
pub fn coef_mul(x: i64, c: i64) -> (r: i64)
    requires
        in_sample_range(x),
        in_coef_range(c),
    ensures
        r == clip(qmul(x as int, c as int), SAMPLE_MAX as int),
        in_sample_range(r),
{
    let neg: bool = (x < 0) != (c < 0);
    let xm: u64 = if x >= 0 {
        x as u64
    } else {
        (-x) as u64
    };
    let cm: u64 = if c >= 0 {
        c as u64
    } else {
        (-c) as u64
    };
    proof {
        assert(xm * cm <= 2147483648u64 * 67108864u64) by (nonlinear_arith)
            requires
                xm <= 2147483648u64,
                cm <= 67108864u64,
        ;
    }
    let pm: u64 = xm * cm;
    let qm: u64 = pm / (Q_ONE as u64);
    proof {
        lemma_magnitude_product(x as int, c as int, xm as int, cm as int);
        assert(qm as int == (xm as int * cm as int) / (Q_ONE as int)) by {
            assert(pm as int == xm as int * cm as int);
        };
    }
    let rq: i64 = if neg {
        -(qm as i64)
    } else {
        qm as i64
    };
    if rq > SAMPLE_MAX {
        SAMPLE_MAX
    } else if rq < -SAMPLE_MAX {
        -SAMPLE_MAX
    } else {
        rq
    }
}

/// Product of two gain coefficients, scaled by 2^-24.  At these bounds the
/// result stays within the coefficient range, so no saturation is needed.
pub fn gain_mul(a: i64, b: i64) -> (r: i64)
    requires
        in_gain_range(a),
        in_gain_range(b),
    ensures
        r == qmul(a as int, b as int),
        in_coef_range(r),
{
    let neg: bool = (a < 0) != (b < 0);
    let am: u64 = if a >= 0 {
        a as u64
    } else {
        (-a) as u64
    };
    let bm: u64 = if b >= 0 {
        b as u64
    } else {
        (-b) as u64
    };
    proof {
        assert(am * bm <= 33554432u64 * 33554432u64) by (nonlinear_arith)
            requires
                am <= 33554432u64,
                bm <= 33554432u64,
        ;
    }
    let pm: u64 = am * bm;
    let qm: u64 = pm / (Q_ONE as u64);
    proof {
        lemma_magnitude_product(a as int, b as int, am as int, bm as int);
        assert(pm as int == am as int * bm as int);
        assert(qm <= 67108864u64) by {
            assert(pm <= 67108864u64 * (Q_ONE as u64));
            vstd::arithmetic::div_mod::lemma_div_is_ordered(
                pm as int,
                67108864 * (Q_ONE as int),
                Q_ONE as int,
            );
            vstd::arithmetic::div_mod::lemma_div_multiples_vanish(67108864, Q_ONE as int);
        };
    }
    if neg {
        -(qm as i64)
    } else {
        qm as i64
    }
}

/// `x / 2`, rounded toward zero.
pub fn half_sample(x: i64) -> (r: i64)
    requires
        in_sample_range(x),
    ensures
        r == half(x as int),
        in_sample_range(r),
{
    if x >= 0 {
        x / 2
    } else {
        -((-x) / 2)
    }
}

/// `x` limited to `[-bound, bound]`.
pub fn clamp_sample(x: i64, bound: i64) -> (r: i64)
    requires
        in_sample_range(x),
        0 <= bound,
    ensures
        r == clip(x as int, bound as int),
{
    if x > bound {
        bound
    } else if x < -bound {
        -bound
    } else {
        x
    }
}

/// The magnitudes of two signed values multiply to the magnitude of their
/// product, with the sign given by the operand signs.
proof fn lemma_magnitude_product(a: int, b: int, am: int, bm: int)
    requires
        am == if a >= 0 { a } else { -a },
        bm == if b >= 0 { b } else { -b },
    ensures
        (a >= 0) == (b >= 0) || a == 0 || b == 0 ==> a * b >= 0 && a * b == am * bm,
        (a >= 0) != (b >= 0) && a != 0 && b != 0 ==> a * b <= 0 && -(a * b) == am * bm,
{
    assert((a >= 0) == (b >= 0) || a == 0 || b == 0 ==> a * b >= 0 && a * b == am * bm)
        by (nonlinear_arith)
        requires
            am == if a >= 0 { a } else { -a },
            bm == if b >= 0 { b } else { -b },
    ;
    assert((a >= 0) != (b >= 0) && a != 0 && b != 0 ==> a * b <= 0 && -(a * b) == am * bm)
        by (nonlinear_arith)
        requires
            am == if a >= 0 { a } else { -a },
            bm == if b >= 0 { b } else { -b },
    ;
}

/// Scaling by one is exact: `qmul(x, Q_ONE) == x`.
pub proof fn lemma_qmul_one(x: int)
    ensures
        qmul(x, Q_ONE as int) == x,
{
    if x >= 0 {
        assert(x * (Q_ONE as int) >= 0) by (nonlinear_arith)
            requires
                x >= 0,
        ;
        vstd::arithmetic::div_mod::lemma_div_multiples_vanish(x, Q_ONE as int);
    } else {
        assert(x * (Q_ONE as int) < 0) by (nonlinear_arith)
            requires
                x < 0,
        ;
        assert(-(x * (Q_ONE as int)) == (-x) * (Q_ONE as int)) by (nonlinear_arith);
        vstd::arithmetic::div_mod::lemma_div_multiples_vanish(-x, Q_ONE as int);
    }
}

/// Scaling by zero gives zero.
pub proof fn lemma_qmul_zero(x: int)
    ensures
        qmul(x, 0) == 0,
{
    assert(x * 0 == 0) by (nonlinear_arith);
}

/// Q24 product of two small non-negative values (at most 8.0 in Q24).
pub fn qmul_small(a: i64, b: i64) -> (r: i64)
    requires
        0 <= a <= 0x800_0000,
        0 <= b <= 0x800_0000,
    ensures
        r == qmul(a as int, b as int),
        r >= 0,
{
    proof {
        assert((a as u64) * (b as u64) <= 0x800_0000u64 * 0x800_0000u64) by (nonlinear_arith)
            requires
                a as u64 <= 0x800_0000u64,
                b as u64 <= 0x800_0000u64,
        ;
        assert(a as int * b as int >= 0) by (nonlinear_arith)
            requires
                a >= 0,
                b >= 0,
        ;
    }
    let p: u64 = (a as u64) * (b as u64);
    proof {
        vstd::arithmetic::div_mod::lemma_div_pos_is_pos(p as int, Q_ONE as int);
        vstd::arithmetic::div_mod::lemma_div_is_ordered(
            p as int,
            0x800_0000int * 0x800_0000,
            Q_ONE as int,
        );
        vstd::arithmetic::div_mod::lemma_div_multiples_vanish(0x4000_0000, Q_ONE as int);
    }
    (p / (Q_ONE as u64)) as i64
}

/// Scaling a square is never negative: `qmul(a, a) >= 0`.
pub proof fn lemma_qmul_square_nonneg(a: int)
    ensures
        qmul(a, a) >= 0,
{
    assert(a * a >= 0) by (nonlinear_arith);
    vstd::arithmetic::div_mod::lemma_div_pos_is_pos(a * a, Q_ONE as int);
}

/// A Q24 product with a factor of magnitude at most one keeps the other
/// factor's magnitude: `|qmul(a, b)| <= |a|` when `|b| <= Q_ONE`.
pub proof fn lemma_qmul_contract(a: int, b: int)
    requires
        -Q_ONE <= b <= Q_ONE,
    ensures
        -(if a >= 0 { a } else { -a }) <= qmul(a, b) <= (if a >= 0 { a } else { -a }),
{
    let am = if a >= 0 { a } else { -a };
    let p = a * b;
    let pm = if p >= 0 { p } else { -p };
    assert(pm <= am * Q_ONE) by (nonlinear_arith)
        requires
            am == if a >= 0 { a } else { -a },
            pm == if p >= 0 { p } else { -p },
            p == a * b,
            -Q_ONE <= b <= Q_ONE,
    ;
    vstd::arithmetic::div_mod::lemma_div_is_ordered(pm, am * Q_ONE, Q_ONE as int);
    vstd::arithmetic::div_mod::lemma_div_multiples_vanish(am, Q_ONE as int);
    vstd::arithmetic::div_mod::lemma_div_pos_is_pos(pm, Q_ONE as int);
}

} // verus!
