//! The feedback-coupled delay pair and the Schroeder allpass built on it.
//!
//! `DelayWithFeedback` couples two `Delay` lines: the input plus the weighted
//! previous output of the secondary line is fed into the primary line, whose
//! output is both returned and pushed through the secondary line.  The
//! feedback path therefore carries one extra sample of latency by design.
//!
//! `Allpass` wraps a `DelayWithFeedback` whose feedback coefficient is kept
//! equal to the allpass coefficient `g`, and forms the classical first-order
//! Schroeder response `-g*x + (1 - g*g) * pair(x)`.

use vstd::prelude::*;
use crate::fixed::{
    Q_ONE, SAMPLE_MAX, in_sample_range, in_gain_range, in_coef_range, clip, qmul, sat_add,
    coef_mul, gain_mul, lemma_qmul_one, lemma_qmul_zero, lemma_qmul_square_nonneg,
};
use crate::delay::{Delay, DelayModel};

verus! {

/// The mathematical state of a feedback-coupled delay pair.
pub struct FeedbackModel {
    pub delay: DelayModel,
    pub feedback_delay: DelayModel,
    pub feedback: i64,
    pub former: i64,
    pub former_feedback: i64,
}

impl FeedbackModel {
    pub open spec fn wf(self) -> bool {
        &&& self.delay.wf()
        &&& self.feedback_delay.wf()
        &&& in_gain_range(self.feedback)
        &&& in_sample_range(self.former)
        &&& in_sample_range(self.former_feedback)
    }

    /// The sample fed into the primary line: the input plus the weighted
    /// previous output of the feedback line, saturated.
    pub open spec fn fed(self, x: i64) -> i64 {
        clip(
            x + clip(
                qmul(self.former_feedback as int, self.feedback as int),
                SAMPLE_MAX as int,
            ),
            SAMPLE_MAX as int,
        ) as i64
    }

    /// What one call returns: the primary line's delayed sample.
    pub open spec fn out(self, x: i64) -> i64 {
        self.delay.out(self.fed(x))
    }

    /// The state after one call: the primary line steps on the fed sample,
    /// the feedback line steps on the primary output, and both last outputs
    /// are recorded for the next call.
    pub open spec fn step(self, x: i64) -> FeedbackModel {
        let f = self.fed(x);
        let y = self.delay.out(f);
        FeedbackModel {
            delay: self.delay.step(f),
            feedback_delay: self.feedback_delay.step(y),
            feedback: self.feedback,
            former: y,
            former_feedback: self.feedback_delay.out(y),
        }
    }

    /// A fresh pair: two fresh delay lines of the same rate and time.
    pub open spec fn fresh(len: int, time: int, feedback: i64) -> FeedbackModel {
        FeedbackModel {
            delay: DelayModel::fresh(len, time),
            feedback_delay: DelayModel::fresh(len, time),
            feedback,
            former: 0,
            former_feedback: 0,
        }
    }
}

/// A well-formed pair emits only in-range samples.
pub proof fn lemma_feedback_out_in_range(m: FeedbackModel, x: i64)
    requires
        m.wf(),
    ensures
        in_sample_range(m.out(x)),
        m.step(x).wf(),
{
}

/// Two delay lines coupled through a feedback coefficient: the core
/// recursive building block of the reverb.
pub struct DelayWithFeedback {
    delay: Delay,
    feedback_delay: Delay,
    feedback: i64,
    former: i64,
    former_feedback: i64,
}

impl View for DelayWithFeedback {
    type V = FeedbackModel;

    closed spec fn view(&self) -> FeedbackModel {
        FeedbackModel {
            delay: self.delay@,
            feedback_delay: self.feedback_delay@,
            feedback: self.feedback,
            former: self.former,
            former_feedback: self.former_feedback,
        }
    }
}

impl DelayWithFeedback {
    /// A fresh pair of zero-filled delay lines sharing one delay time.
    pub fn new(sample_rate: u32, time: i32, feedback: i64) -> (d: DelayWithFeedback)
        requires
            sample_rate >= 4,
            in_gain_range(feedback),
        ensures
            d@ == FeedbackModel::fresh(sample_rate as int / 4, time as int, feedback),
            d@.wf(),
    {
        DelayWithFeedback {
            delay: Delay::new(sample_rate, time),
            feedback_delay: Delay::new(sample_rate, time),
            feedback,
            former: 0,
            former_feedback: 0,
        }
    }

    /// Sets the coefficient used on the next call.
    pub fn set_feedback(&mut self, feedback: i64)
        requires
            old(self)@.wf(),
            in_gain_range(feedback),
        ensures
            final(self)@ == (FeedbackModel { feedback, ..old(self)@ }),
            final(self)@.wf(),
    {
        self.feedback = feedback;
    }

    /// Repositions both delay lines identically.
    pub fn set_time(&mut self, time: i32)
        requires
            old(self)@.wf(),
        ensures
            final(self)@ == (FeedbackModel {
                delay: old(self)@.delay.with_time(time as int),
                feedback_delay: old(self)@.feedback_delay.with_time(time as int),
                ..old(self)@
            }),
            final(self)@.wf(),
    {
        self.delay.set_time(time);
        self.feedback_delay.set_time(time);
    }

    /// Feeds the input plus weighted feedback into the primary line, pushes
    /// the primary output through the feedback line, and returns the primary
    /// output.
    pub fn process_sample(&mut self, input: i64) -> (out: i64)
        requires
            old(self)@.wf(),
            in_sample_range(input),
        ensures
            final(self)@ == old(self)@.step(input),
            out == old(self)@.out(input),
            final(self)@.wf(),
            in_sample_range(out),
    {
        let fed = sat_add(input, coef_mul(self.former_feedback, self.feedback));
        let y = self.delay.process_sample(fed);
        let ff = self.feedback_delay.process_sample(y);
        self.former = y;
        self.former_feedback = ff;
        y
    }
}

/// The mathematical state of an allpass filter: its coefficient and the
/// pair it is built on, whose feedback coefficient stays equal to `g`.
pub struct AllpassModel {
    pub pair: FeedbackModel,
    pub g: i64,
}

impl AllpassModel {
    pub open spec fn wf(self) -> bool {
        &&& self.pair.wf()
        &&& in_gain_range(self.g)
        &&& self.pair.feedback == self.g
    }

    /// The Schroeder allpass response `-g*x + (1 - g*g) * pair(x)`,
    /// saturated per term and on the sum.
    pub open spec fn out(self, x: i64) -> i64 {
        clip(
            clip(qmul(x as int, -(self.g as int)), SAMPLE_MAX as int) + clip(
                qmul(self.pair.out(x) as int, Q_ONE - qmul(self.g as int, self.g as int)),
                SAMPLE_MAX as int,
            ),
            SAMPLE_MAX as int,
        ) as i64
    }

    /// The state after one call: only the inner pair moves.
    pub open spec fn step(self, x: i64) -> AllpassModel {
        AllpassModel { pair: self.pair.step(x), g: self.g }
    }

    pub open spec fn fresh(len: int, time: int, g: i64) -> AllpassModel {
        AllpassModel { pair: FeedbackModel::fresh(len, time, g), g }
    }
}

/// A first-order Schroeder allpass filter built on a feedback delay pair.
pub struct Allpass {
    delay: DelayWithFeedback,
    g: i64,
}

impl View for Allpass {
    type V = AllpassModel;

    closed spec fn view(&self) -> AllpassModel {
        AllpassModel { pair: self.delay@, g: self.g }
    }
}

impl Allpass {
    /// A fresh allpass whose pair's feedback coefficient equals `g`.
    pub fn new(sample_rate: u32, time: i32, g: i64) -> (a: Allpass)
        requires
            sample_rate >= 4,
            in_gain_range(g),
        ensures
            a@ == AllpassModel::fresh(sample_rate as int / 4, time as int, g),
            a@.wf(),
    {
        Allpass { delay: DelayWithFeedback::new(sample_rate, time, g), g }
    }

    /// Repositions both lines of the inner pair.
    pub fn set_time(&mut self, time: i32)
        requires
            old(self)@.wf(),
        ensures
            final(self)@ == (AllpassModel {
                pair: (FeedbackModel {
                    delay: old(self)@.pair.delay.with_time(time as int),
                    feedback_delay: old(self)@.pair.feedback_delay.with_time(time as int),
                    ..old(self)@.pair
                }),
                g: old(self)@.g,
            }),
            final(self)@.wf(),
    {
        self.delay.set_time(time);
    }

    /// Updates the allpass coefficient and the pair's feedback coefficient
    /// together, so they agree before the next sample.
    pub fn set_g(&mut self, g: i64)
        requires
            old(self)@.wf(),
            in_gain_range(g),
        ensures
            final(self)@ == (AllpassModel {
                pair: (FeedbackModel { feedback: g, ..old(self)@.pair }),
                g,
            }),
            final(self)@.wf(),
    {
        self.g = g;
        self.delay.set_feedback(g);
    }

    /// The Schroeder allpass response of one input sample.
    pub fn process_sample(&mut self, input: i64) -> (out: i64)
        requires
            old(self)@.wf(),
            in_sample_range(input),
        ensures
            final(self)@ == old(self)@.step(input),
            out == old(self)@.out(input),
            final(self)@.wf(),
            in_sample_range(out),
    {
        let y = self.delay.process_sample(input);
        let gsq = gain_mul(self.g, self.g);
        proof {
            lemma_qmul_square_nonneg(self.g as int);
        }
        let one_minus: i64 = Q_ONE - gsq;
        sat_add(coef_mul(input, -self.g), coef_mul(y, one_minus))
    }
}

/// An allpass with coefficient zero passes the signal through its inner
/// feedback pair unweighted: the output equals the pair's output, and the
/// pair advances exactly as it would alone.
pub proof fn lemma_allpass_zero_g(m: AllpassModel, x: i64)
    requires
        m.wf(),
        m.g == 0,
        in_sample_range(x),
    ensures
        m.out(x) == m.pair.out(x),
        m.step(x) == (AllpassModel { pair: m.pair.step(x), g: 0 }),
{
    let y = m.pair.out(x);
    lemma_feedback_out_in_range(m.pair, x);
    lemma_qmul_zero(x as int);
    assert(qmul(x as int, -(0int)) == 0) by {
        assert(x as int * 0 == 0) by (nonlinear_arith);
    };
    lemma_qmul_zero(0);
    lemma_qmul_one(y as int);
}

} // verus!
