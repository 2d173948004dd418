//! The sample-and-hold degradation stage and the degraded feedback delay.
//!
//! `Downsampler` is a partial decimator: a counter advances by two modulo
//! `amount + 1`, the input is latched whenever the counter lands on zero, and
//! the output crossfades between the held sample and the raw input.  Because
//! the counter advances by two, the hold period depends on the parity of
//! `amount + 1`; that asymmetry is part of the observed behaviour and is kept.
//!
//! `DegradedDelay` has the shape of `DelayWithFeedback`, but the signal
//! returning through the feedback path is blended with its downsampled image
//! (`a` weighs the downsampled branch) before it is stored for the next call.

use vstd::prelude::*;
use crate::fixed::{
    Q_ONE, SAMPLE_MAX, in_sample_range, in_gain_range, clip, qmul, sat_add, coef_mul,
    lemma_qmul_one, lemma_qmul_zero,
};
use crate::delay::{Delay, DelayModel};
use vstd::arithmetic::div_mod::lemma_mod_bound;

verus! {

/// The mathematical state of the sample-and-hold decimator.
pub struct DownsamplerModel {
    pub amount: u32,
    pub count: u32,
    pub held: i64,
}

impl DownsamplerModel {
    pub open spec fn wf(self) -> bool {
        in_sample_range(self.held)
    }

    /// The counter after one call: advanced by two, modulo `amount + 1`.
    pub open spec fn next_count(self) -> int {
        (self.count as int + 2) % (self.amount as int + 1)
    }

    /// The held sample after one call: latched exactly when the advanced
    /// counter lands on zero.
    pub open spec fn next_held(self, x: i64) -> i64 {
        if self.next_count() == 0 {
            x
        } else {
            self.held
        }
    }

    /// What one call returns: the crossfade `ratio*held + (1-ratio)*x`
    /// between the held (decimated) sample and the untouched input.
    pub open spec fn out(self, x: i64, ratio: i64) -> i64 {
        clip(
            clip(qmul(self.next_held(x) as int, ratio as int), SAMPLE_MAX as int) + clip(
                qmul(x as int, Q_ONE - ratio),
                SAMPLE_MAX as int,
            ),
            SAMPLE_MAX as int,
        ) as i64
    }

    /// The state after one call.
    pub open spec fn step(self, x: i64) -> DownsamplerModel {
        DownsamplerModel {
            amount: self.amount,
            count: self.next_count() as u32,
            held: self.next_held(x),
        }
    }

    /// A fresh decimator: zero amount, zero counter, silence held.
    pub open spec fn fresh() -> DownsamplerModel {
        DownsamplerModel { amount: 0, count: 0, held: 0 }
    }
}

/// A sample-and-hold decimator with a crossfade ratio.
pub struct Downsampler {
    amount: u32,
    count: u32,
    held: i64,
}

impl View for Downsampler {
    type V = DownsamplerModel;

    closed spec fn view(&self) -> DownsamplerModel {
        DownsamplerModel { amount: self.amount, count: self.count, held: self.held }
    }
}

impl Downsampler {
    pub fn new() -> (d: Downsampler)
        ensures
            d@ == DownsamplerModel::fresh(),
            d@.wf(),
    {
        Downsampler { amount: 0, count: 0, held: 0 }
    }

    /// Sets the decimation amount used from the next call on.
    pub fn set_amt(&mut self, amount: u32)
        requires
            old(self)@.wf(),
        ensures
            final(self)@ == (DownsamplerModel { amount, ..old(self)@ }),
            final(self)@.wf(),
    {
        self.amount = amount;
    }

    /// Advances the counter by two modulo `amount + 1`, latches the input
    /// when the counter lands on zero, and returns the crossfade between the
    /// held sample and the input.
    pub fn process_sample(&mut self, x: i64, ratio: i64) -> (out: i64)
        requires
            old(self)@.wf(),
            in_sample_range(x),
            0 <= ratio <= Q_ONE,
        ensures
            final(self)@ == old(self)@.step(x),
            out == old(self)@.out(x, ratio),
            final(self)@.wf(),
            in_sample_range(out),
    {
        let c: u64 = ((self.count as u64) + 2) % ((self.amount as u64) + 1);
        proof {
            lemma_mod_bound(old(self)@.count as int + 2, old(self)@.amount as int + 1);
        }
        self.count = c as u32;
        if self.count == 0 {
            self.held = x;
        }
        let wet = coef_mul(self.held, ratio);
        let dry = coef_mul(x, Q_ONE - ratio);
        sat_add(wet, dry)
    }
}

/// With crossfade ratio zero the decimator passes the input through
/// unchanged, whatever the decimation amount or held sample.
pub proof fn lemma_downsampler_ratio_zero(m: DownsamplerModel, x: i64)
    requires
        m.wf(),
        in_sample_range(x),
    ensures
        m.out(x, 0) == x,
{
    lemma_qmul_zero(m.next_held(x) as int);
    lemma_qmul_one(x as int);
}

/// With ratio one and amount zero the counter lands on zero at every call,
/// so every sample is latched and the output equals the input.
pub proof fn lemma_downsampler_latch_every(m: DownsamplerModel, x: i64)
    requires
        m.wf(),
        m.amount == 0,
        in_sample_range(x),
    ensures
        m.step(x).count == 0,
        m.step(x).held == x,
        m.out(x, Q_ONE) == x,
{
    lemma_mod_bound(m.count as int + 2, 1);
    lemma_qmul_one(x as int);
    lemma_qmul_zero(x as int);
}

/// The mathematical state of a degraded feedback delay: a feedback delay
/// pair whose feedback path runs through the decimator.
pub struct DegradedModel {
    pub delay: DelayModel,
    pub feedback_delay: DelayModel,
    pub feedback: i64,
    pub blend: i64,
    pub downsampler: DownsamplerModel,
    pub ratio: i64,
    pub former: i64,
    pub former_feedback: i64,
}

impl DegradedModel {
    pub open spec fn wf(self) -> bool {
        &&& self.delay.wf()
        &&& self.feedback_delay.wf()
        &&& in_gain_range(self.feedback)
        &&& 0 <= self.blend <= Q_ONE
        &&& self.downsampler.wf()
        &&& 0 <= self.ratio <= Q_ONE
        &&& in_sample_range(self.former)
        &&& in_sample_range(self.former_feedback)
    }

    /// The sample fed into the primary line: the input plus the weighted
    /// previous (degraded) feedback sample, saturated.
    pub open spec fn fed(self, x: i64) -> i64 {
        clip(
            x + clip(
                qmul(self.former_feedback as int, self.feedback as int),
                SAMPLE_MAX as int,
            ),
            SAMPLE_MAX as int,
        ) as i64
    }

    /// What one call returns: the primary line's delayed sample.
    pub open spec fn out(self, x: i64) -> i64 {
        self.delay.out(self.fed(x))
    }

    /// The degraded feedback sample stored for the next call: the raw
    /// feedback-line output blended with its downsampled image, with `blend`
    /// weighing the downsampled branch.
    pub open spec fn degraded(self, raw: i64) -> i64 {
        clip(
            clip(
                qmul(self.downsampler.out(raw, self.ratio) as int, self.blend as int),
                SAMPLE_MAX as int,
            ) + clip(qmul(raw as int, Q_ONE - self.blend), SAMPLE_MAX as int),
            SAMPLE_MAX as int,
        ) as i64
    }

    /// The state after one call: both lines step as in the plain pair, the
    /// decimator steps on the raw feedback sample, and the blended result is
    /// stored as the next feedback sample.
    pub open spec fn step(self, x: i64) -> DegradedModel {
        let f = self.fed(x);
        let y = self.delay.out(f);
        let raw = self.feedback_delay.out(y);
        DegradedModel {
            delay: self.delay.step(f),
            feedback_delay: self.feedback_delay.step(y),
            feedback: self.feedback,
            blend: self.blend,
            downsampler: self.downsampler.step(raw),
            ratio: self.ratio,
            former: y,
            former_feedback: self.degraded(raw),
        }
    }

    /// A fresh degraded delay: two fresh lines, a fresh decimator, full
    /// blend toward the downsampled branch and zero crossfade ratio.
    pub open spec fn fresh(len: int, time: int, feedback: i64) -> DegradedModel {
        DegradedModel {
            delay: DelayModel::fresh(len, time),
            feedback_delay: DelayModel::fresh(len, time),
            feedback,
            blend: Q_ONE,
            downsampler: DownsamplerModel::fresh(),
            ratio: 0,
            former: 0,
            former_feedback: 0,
        }
    }
}

/// A feedback delay pair whose feedback path is partially degraded by the
/// sample-and-hold decimator.
pub struct DegradedDelay {
    delay: Delay,
    feedback_delay: Delay,
    feedback: i64,
    blend: i64,
    downsampler: Downsampler,
    ratio: i64,
    former: i64,
    former_feedback: i64,
}

impl View for DegradedDelay {
    type V = DegradedModel;

    closed spec fn view(&self) -> DegradedModel {
        DegradedModel {
            delay: self.delay@,
            feedback_delay: self.feedback_delay@,
            feedback: self.feedback,
            blend: self.blend,
            downsampler: self.downsampler@,
            ratio: self.ratio,
            former: self.former,
            former_feedback: self.former_feedback,
        }
    }
}

impl DegradedDelay {
    /// A fresh degraded delay over zero-filled lines sharing one time.
    pub fn new(sample_rate: u32, time: i32, feedback: i64) -> (d: DegradedDelay)
        requires
            sample_rate >= 4,
            in_gain_range(feedback),
        ensures
            d@ == DegradedModel::fresh(sample_rate as int / 4, time as int, feedback),
            d@.wf(),
    {
        DegradedDelay {
            delay: Delay::new(sample_rate, time),
            feedback_delay: Delay::new(sample_rate, time),
            feedback,
            blend: Q_ONE,
            downsampler: Downsampler::new(),
            ratio: 0,
            former: 0,
            former_feedback: 0,
        }
    }

    /// Sets the feedback coefficient used on the next call.
    pub fn set_feedback(&mut self, feedback: i64)
        requires
            old(self)@.wf(),
            in_gain_range(feedback),
        ensures
            final(self)@ == (DegradedModel { feedback, ..old(self)@ }),
            final(self)@.wf(),
    {
        self.feedback = feedback;
    }

    /// Sets the blend coefficient: one means fully degraded feedback, zero
    /// means raw feedback.
    pub fn set_a(&mut self, blend: i64)
        requires
            old(self)@.wf(),
            0 <= blend <= Q_ONE,
        ensures
            final(self)@ == (DegradedModel { blend, ..old(self)@ }),
            final(self)@.wf(),
    {
        self.blend = blend;
    }

    /// Sets the decimation amount of the feedback-path decimator.
    pub fn set_amt(&mut self, amount: u32)
        requires
            old(self)@.wf(),
        ensures
            final(self)@ == (DegradedModel {
                downsampler: (DownsamplerModel { amount, ..old(self)@.downsampler }),
                ..old(self)@
            }),
            final(self)@.wf(),
    {
        self.downsampler.set_amt(amount);
    }

    /// Sets the decimator's crossfade ratio.
    pub fn set_ratio(&mut self, ratio: i64)
        requires
            old(self)@.wf(),
            0 <= ratio <= Q_ONE,
        ensures
            final(self)@ == (DegradedModel { ratio, ..old(self)@ }),
            final(self)@.wf(),
    {
        self.ratio = ratio;
    }

    /// Repositions both delay lines identically.
    pub fn set_time(&mut self, time: i32)
        requires
            old(self)@.wf(),
        ensures
            final(self)@ == (DegradedModel {
                delay: old(self)@.delay.with_time(time as int),
                feedback_delay: old(self)@.feedback_delay.with_time(time as int),
                ..old(self)@
            }),
            final(self)@.wf(),
    {
        self.delay.set_time(time);
        self.feedback_delay.set_time(time);
    }

    /// One sample through the degraded pair: like the plain pair, except
    /// that the sample stored for the feedback path is first blended with
    /// its downsampled image.
    pub fn process_sample(&mut self, input: i64) -> (out: i64)
        requires
            old(self)@.wf(),
            in_sample_range(input),
        ensures
            final(self)@ == old(self)@.step(input),
            out == old(self)@.out(input),
            final(self)@.wf(),
            in_sample_range(out),
    {
        let fed = sat_add(input, coef_mul(self.former_feedback, self.feedback));
        let y = self.delay.process_sample(fed);
        let raw = self.feedback_delay.process_sample(y);
        let ds = self.downsampler.process_sample(raw, self.ratio);
        let blended = sat_add(coef_mul(ds, self.blend), coef_mul(raw, Q_ONE - self.blend));
        self.former = y;
        self.former_feedback = blended;
        y
    }
}

} // verus!
