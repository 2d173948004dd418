//! The low-frequency oscillator.
//!
//! `Lfo` is a free-running phase accumulator: each call advances the phase
//! by `freq / sample_rate`, wrapped to `[0, Q_ONE)`, and returns the sine of
//! the squared full phase angle, `sin((phase * 2*pi)^2)` — the angle is
//! squared before the sine on purpose, which makes the modulation curve
//! chirp-like rather than sinusoidal.
//!
//! The sine itself is Bhaskara's rational approximation, evaluated exactly
//! in Q24 integer arithmetic, so every output is pinned by `sine_q`.

use vstd::prelude::*;
use crate::fixed::{Q_ONE, qmul, qmul_small};
use vstd::arithmetic::div_mod::{
    lemma_mod_bound, lemma_div_pos_is_pos, lemma_div_is_ordered, lemma_div_multiples_vanish,
    lemma_div_nonincreasing,
};

verus! {

/// Pi in Q24 fixed point (rounded to the nearest unit).
pub const PI_Q: i64 = 52707179;

/// Two pi in Q24 fixed point.
pub const TWO_PI_Q: i64 = 2 * PI_Q;

/// Largest oscillator frequency accepted (20.0 Hz in Q24).
pub const FREQ_MAX: i64 = 335544320;

/// Bhaskara's sine approximation on `[0, PI_Q]`, in Q24:
/// `16*x*(pi - x) * Q_ONE / (5*pi*pi - 4*x*(pi - x))`, rounded down.
pub open spec fn bhaskara(x: int) -> int {
    (16 * x * (PI_Q - x) * Q_ONE) / (5 * PI_Q * PI_Q - 4 * x * (PI_Q - x))
}

/// Sine on one turn `[0, TWO_PI_Q)`: the second half mirrors the first,
/// negated.
pub open spec fn sine_q(x: int) -> int {
    if x <= PI_Q {
        bhaskara(x)
    } else {
        -bhaskara(x - PI_Q)
    }
}

/// On its domain Bhaskara's numerator never exceeds its denominator, so the
/// approximation stays within `[0, Q_ONE]`.
pub proof fn lemma_bhaskara_bounds(x: int)
    requires
        0 <= x <= PI_Q,
    ensures
        0 <= bhaskara(x) <= Q_ONE,
{
    let u = x * (PI_Q - x);
    let num = 16 * x * (PI_Q - x) * Q_ONE;
    let den = 5 * PI_Q * PI_Q - 4 * x * (PI_Q - x);
    assert(u >= 0 && 4 * u <= PI_Q * PI_Q && num == 16 * u * Q_ONE && den == 5 * PI_Q * PI_Q - 4
        * u && num >= 0 && den > 0 && num <= den * Q_ONE) by (nonlinear_arith)
        requires
            u == x * (PI_Q - x),
            num == 16 * x * (PI_Q - x) * Q_ONE,
            den == 5 * PI_Q * PI_Q - 4 * x * (PI_Q - x),
            0 <= x <= PI_Q,
    ;
    lemma_div_pos_is_pos(num, den);
    lemma_div_is_ordered(num, den * Q_ONE, den);
    assert((den * Q_ONE) / den == Q_ONE) by {
        vstd::arithmetic::div_mod::lemma_div_multiples_vanish(Q_ONE as int, den);
    };
}

/// The sine approximation stays within `[-Q_ONE, Q_ONE]` over a full turn.
pub proof fn lemma_sine_bounds(x: int)
    requires
        0 <= x < TWO_PI_Q,
    ensures
        -Q_ONE <= sine_q(x) <= Q_ONE,
{
    if x <= PI_Q {
        lemma_bhaskara_bounds(x);
    } else {
        lemma_bhaskara_bounds(x - PI_Q);
    }
}

/// Bhaskara's approximation, evaluated in unsigned machine arithmetic.
fn bhaskara_exec(x: i64) -> (r: i64)
    requires
        0 <= x <= PI_Q,
    ensures
        r == bhaskara(x as int),
        0 <= r <= Q_ONE,
{
    proof {
        lemma_bhaskara_bounds(x as int);
    }
    let xu: u64 = x as u64;
    let pu: u64 = (PI_Q - x) as u64;
    proof {
        assert(xu * pu <= 52707179u64 * 52707179u64 && 4 * ((xu * pu) as int) <= PI_Q * PI_Q)
            by (nonlinear_arith)
            requires
                xu as int == x as int,
                pu as int == PI_Q - x as int,
                0 <= x as int <= PI_Q,
        ;
    }
    let u: u64 = xu * pu;
    let num: u64 = 16 * u;
    let den: u64 = 5 * (PI_Q as u64) * (PI_Q as u64) - 4 * u;
    proof {
        assert((num as u128) * (Q_ONE as u128) <= 0xFFFF_FFFF_FFFF_FFFFu128 * 0x100_0000u128)
            by (nonlinear_arith)
            requires
                num as u128 <= 0xFFFF_FFFF_FFFF_FFFFu128,
        ;
    }
    let nu: u128 = (num as u128) * (Q_ONE as u128);
    let q: u128 = nu / (den as u128);
    proof {
        let ui = u as int;
        assert(nu as int == 16 * (x as int) * (PI_Q - x as int) * Q_ONE) by (nonlinear_arith)
            requires
                nu as int == (num as int) * (Q_ONE as int),
                num as int == 16 * ui,
                ui == (x as int) * (PI_Q - x as int),
        ;
        assert(den as int == 5 * PI_Q * PI_Q - 4 * (x as int) * (PI_Q - x as int))
            by (nonlinear_arith)
            requires
                den as int == 5 * PI_Q * PI_Q - 4 * ui,
                ui == (x as int) * (PI_Q - x as int),
        ;
        assert(q as int == bhaskara(x as int));
    }
    q as i64
}

/// The sine approximation over one turn, in machine arithmetic.
fn sine_exec(x: i64) -> (r: i64)
    requires
        0 <= x < TWO_PI_Q,
    ensures
        r == sine_q(x as int),
        -Q_ONE <= r <= Q_ONE,
{
    if x <= PI_Q {
        bhaskara_exec(x)
    } else {
        -bhaskara_exec(x - PI_Q)
    }
}

/// The mathematical state of the oscillator.
pub struct LfoModel {
    pub freq: i64,
    pub phase: i64,
}

impl LfoModel {
    pub open spec fn wf(self) -> bool {
        &&& 0 <= self.freq <= FREQ_MAX
        &&& 0 <= self.phase < Q_ONE
    }

    /// The full phase angle `phase * 2*pi`, in Q24.
    pub open spec fn angle(self) -> int {
        qmul(self.phase as int, TWO_PI_Q as int)
    }

    /// What one call returns: the sine of the squared angle, reduced to one
    /// turn.
    pub open spec fn out(self) -> int {
        sine_q(qmul(self.angle(), self.angle()) % (TWO_PI_Q as int))
    }

    /// The state after one call: the phase advanced by `freq / sample_rate`
    /// and wrapped to `[0, Q_ONE)`.
    pub open spec fn step(self, sample_rate: int) -> LfoModel {
        LfoModel {
            freq: self.freq,
            phase: ((self.phase as int + self.freq as int / sample_rate) % (Q_ONE as int)) as i64,
        }
    }

    pub open spec fn fresh(freq: i64) -> LfoModel {
        LfoModel { freq, phase: 0 }
    }
}

/// Over any step the phase stays in `[0, Q_ONE)` — it wraps without gaps or
/// overflow — and every output lies in `[-Q_ONE, Q_ONE]`.
pub proof fn lemma_lfo_bounds(m: LfoModel, sample_rate: int)
    requires
        m.wf(),
        sample_rate >= 1,
    ensures
        m.step(sample_rate).wf(),
        -Q_ONE <= m.out() <= Q_ONE,
{
    lemma_div_pos_is_pos(m.freq as int, sample_rate);
    lemma_mod_bound(m.phase as int + m.freq as int / sample_rate, Q_ONE as int);
    let a = m.angle();
    lemma_angle_bounds(m);
    lemma_mod_bound(qmul(a, a), TWO_PI_Q as int);
    lemma_sine_bounds(qmul(a, a) % (TWO_PI_Q as int));
}

/// A phase below one turn gives an angle inside `[0, TWO_PI_Q)`.
proof fn lemma_angle_bounds(m: LfoModel)
    requires
        0 <= m.phase < Q_ONE,
    ensures
        0 <= m.angle() < TWO_PI_Q,
        m.angle() <= 0x800_0000,
{
    let p = m.phase as int;
    assert(p * TWO_PI_Q >= 0) by (nonlinear_arith)
        requires
            p >= 0,
    ;
    lemma_div_pos_is_pos(p * TWO_PI_Q, Q_ONE as int);
    assert(p * TWO_PI_Q <= (Q_ONE - 1) * TWO_PI_Q) by (nonlinear_arith)
        requires
            p <= Q_ONE - 1,
    ;
    lemma_div_is_ordered(p * TWO_PI_Q, (Q_ONE - 1) * TWO_PI_Q, Q_ONE as int);
    assert(((Q_ONE - 1) * TWO_PI_Q) / (Q_ONE as int) < TWO_PI_Q) by {
        assert((Q_ONE - 1) * TWO_PI_Q < Q_ONE * TWO_PI_Q) by (nonlinear_arith);
        assert((Q_ONE * TWO_PI_Q) / (Q_ONE as int) == TWO_PI_Q) by {
            lemma_div_multiples_vanish(TWO_PI_Q as int, Q_ONE as int);
        };
        vstd::arithmetic::div_mod::lemma_div_by_multiple_is_strongly_ordered(
            (Q_ONE - 1) * TWO_PI_Q,
            Q_ONE * TWO_PI_Q,
            TWO_PI_Q as int,
            Q_ONE as int,
        );
    };
}

/// A free-running low-frequency oscillator.
pub struct Lfo {
    freq: i64,
    phase: i64,
}

impl View for Lfo {
    type V = LfoModel;

    closed spec fn view(&self) -> LfoModel {
        LfoModel { freq: self.freq, phase: self.phase }
    }
}

impl Lfo {
    /// A fresh oscillator at the given frequency with phase zero.
    pub fn new(freq: i64) -> (l: Lfo)
        requires
            0 <= freq <= FREQ_MAX,
        ensures
            l@ == LfoModel::fresh(freq),
            l@.wf(),
    {
        Lfo { freq, phase: 0 }
    }

    /// Returns `sin((phase * 2*pi)^2)` — the full accumulated angle is
    /// squared before the sine — then advances the phase by
    /// `freq / sample_rate`, wrapped to `[0, Q_ONE)`.
    pub fn next_sample(&mut self, sample_rate: u32) -> (out: i64)
        requires
            old(self)@.wf(),
            sample_rate >= 1,
        ensures
            final(self)@ == old(self)@.step(sample_rate as int),
            out == old(self)@.out(),
            final(self)@.wf(),
            -Q_ONE <= out <= Q_ONE,
    {
        proof {
            lemma_lfo_bounds(old(self)@, sample_rate as int);
            lemma_angle_bounds(old(self)@);
        }
        let angle = qmul_small(self.phase, TWO_PI_Q);
        let sq = qmul_small(angle, angle);
        let red: i64 = ((sq as u64) % (TWO_PI_Q as u64)) as i64;
        proof {
            lemma_mod_bound(sq as int, TWO_PI_Q as int);
        }
        let s = sine_exec(red);
        let inc: i64 = ((self.freq as u64) / (sample_rate as u64)) as i64;
        proof {
            lemma_div_pos_is_pos(self.freq as int, sample_rate as int);
            lemma_div_nonincreasing(self.freq as int, sample_rate as int);
            lemma_mod_bound(self.phase + inc, Q_ONE as int);
        }
        self.phase = (((self.phase + inc) as u64) % (Q_ONE as u64)) as i64;
        s
    }
}

} // verus!
