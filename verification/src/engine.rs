//! The top-level stereo reverb network.
//!
//! Per channel the engine keeps a parallel bank of four degraded feedback
//! delays feeding a cascade of three allpass filters.  Each sample, the
//! glitch selector resolves the effective gain and output clamp threshold
//! (normal, forced-unity, or LFO-modulated "wacky" mode), the resolved
//! coefficients are broadcast to every sub-filter, the bank outputs are
//! summed and halved, pushed through the cascade, scaled by the gain, mixed
//! with the dry input and clamped.
//!
//! Both channels' delay banks read the left input sample — an asymmetry of
//! the observed behaviour that is kept on purpose — while each channel's dry
//! path uses its own input.

use vstd::prelude::*;
use crate::fixed::{
    Q_ONE, SAMPLE_MAX, in_sample_range, in_gain_range, clip, qmul, sat_add, coef_mul, gain_mul,
    half, half_sample, clamp_sample,
};
use crate::feedback::{Allpass, AllpassModel, FeedbackModel};
use crate::degrade::{DegradedDelay, DegradedModel, DownsamplerModel};
use crate::lfo::{Lfo, LfoModel};

verus! {

/// Above this selector value (0.7 in Q24) the engine is in "wacky" mode:
/// the gain is modulated by the oscillator and the clamp tightens.
pub const WACKY_LIMIT: i64 = 11744051;

/// Above this selector value (0.3 in Q24), up to `WACKY_LIMIT`, the gain is
/// forced to one.
pub const FORCED_LIMIT: i64 = 5033164;

/// The clamp threshold of wacky mode (0.25 in Q24).
pub const WACKY_THRESHOLD: i64 = 4194304;

/// The depth of the wacky-mode gain modulation (0.1 in Q24).
pub const MOD_DEPTH: i64 = 1677722;

/// The oscillator frequency of the shared LFO (2.0 Hz in Q24).
pub const LFO_FREQ: i64 = 33554432;

/// The default gain of every filter at construction (0.7 in Q24).
pub const DEFAULT_G: i64 = 11744051;

/// The largest decimation amount a parameter can ask for.
pub const MAX_AMOUNT: i64 = 29;

/// One set of per-sample control values, all in Q24.
pub struct Params {
    /// Gain / decay coefficient, in `[0, Q_ONE]`.
    pub g: i64,
    /// Damping, in `[0, Q_ONE]`; the feedback blend becomes `1 - damping`.
    pub damping: i64,
    /// Degradation intensity, in `[0, 29 * Q_ONE]`; its integer part is the
    /// decimation amount.
    pub degrade_intensity: i64,
    /// Degradation speed, in `[0, Q_ONE]`; the decimator's crossfade ratio.
    pub degrade_speed: i64,
    /// Glitch mode selector, in `[0, Q_ONE]`.
    pub glitch: i64,
}

impl Default for Params {
    /// The construction-time defaults: gain 0.7, no damping, no
    /// degradation, normal glitch mode.
    fn default() -> (p: Params)
        ensures
            p == (Params {
                g: DEFAULT_G,
                damping: 0,
                degrade_intensity: 0,
                degrade_speed: 0,
                glitch: 0,
            }),
            p.wf(),
    {
        Params { g: DEFAULT_G, damping: 0, degrade_intensity: 0, degrade_speed: 0, glitch: 0 }
    }
}

impl Params {
    pub open spec fn wf(self) -> bool {
        &&& 0 <= self.g <= Q_ONE
        &&& 0 <= self.damping <= Q_ONE
        &&& 0 <= self.degrade_intensity <= MAX_AMOUNT * Q_ONE
        &&& 0 <= self.degrade_speed <= Q_ONE
        &&& 0 <= self.glitch <= Q_ONE
    }
}

/// The glitch resolution: from the selector, the raw gain and the shared
/// oscillator, the stepped oscillator, the effective gain and the clamp
/// threshold.
pub open spec fn resolve(lfo: LfoModel, g: i64, glitch: i64, sample_rate: int) -> (
    LfoModel,
    i64,
    i64,
) {
    if glitch > WACKY_LIMIT {
        (
            lfo.step(sample_rate),
            (g + qmul(MOD_DEPTH as int, lfo.out())) as i64,
            WACKY_THRESHOLD,
        )
    } else if glitch > FORCED_LIMIT {
        (lfo, Q_ONE, Q_ONE)
    } else {
        (lfo, g, Q_ONE)
    }
}

/// The final mix of one channel: the cascade output scaled by the gain,
/// added to the dry input, clamped to the threshold.
pub open spec fn mix(wet: i64, g_eff: i64, dry: i64, threshold: i64) -> i64 {
    clip(
        clip(
            clip(qmul(wet as int, g_eff as int), SAMPLE_MAX as int) + dry,
            SAMPLE_MAX as int,
        ),
        threshold as int,
    ) as i64
}

/// The per-channel network: three allpasses in series fed by a parallel
/// bank of four degraded delays.
pub struct ChannelModel {
    pub allpass_one: AllpassModel,
    pub allpass_two: AllpassModel,
    pub allpass_three: AllpassModel,
    pub delay_one: DegradedModel,
    pub delay_two: DegradedModel,
    pub delay_three: DegradedModel,
    pub delay_four: DegradedModel,
}

impl ChannelModel {
    pub open spec fn wf(self) -> bool {
        &&& self.allpass_one.wf()
        &&& self.allpass_two.wf()
        &&& self.allpass_three.wf()
        &&& self.delay_one.wf()
        &&& self.delay_two.wf()
        &&& self.delay_three.wf()
        &&& self.delay_four.wf()
    }

    /// The channel after the per-sample broadcast: gain `g_eff` on the
    /// allpasses (sign alternated on the second) and on every delay's
    /// feedback, blend, decimation amount and crossfade ratio on the bank.
    pub open spec fn configured(self, g_eff: i64, blend: i64, amount: u32, ratio: i64) -> ChannelModel {
        ChannelModel {
            allpass_one: AllpassModel {
                pair: FeedbackModel { feedback: g_eff, ..self.allpass_one.pair },
                g: g_eff,
            },
            allpass_two: AllpassModel {
                pair: FeedbackModel { feedback: (-g_eff) as i64, ..self.allpass_two.pair },
                g: (-g_eff) as i64,
            },
            allpass_three: AllpassModel {
                pair: FeedbackModel { feedback: g_eff, ..self.allpass_three.pair },
                g: g_eff,
            },
            delay_one: DegradedModel {
                feedback: g_eff,
                blend,
                downsampler: DownsamplerModel { amount, ..self.delay_one.downsampler },
                ratio,
                ..self.delay_one
            },
            delay_two: DegradedModel {
                feedback: g_eff,
                blend,
                downsampler: DownsamplerModel { amount, ..self.delay_two.downsampler },
                ratio,
                ..self.delay_two
            },
            delay_three: DegradedModel {
                feedback: g_eff,
                blend,
                downsampler: DownsamplerModel { amount, ..self.delay_three.downsampler },
                ratio,
                ..self.delay_three
            },
            delay_four: DegradedModel {
                feedback: g_eff,
                blend,
                downsampler: DownsamplerModel { amount, ..self.delay_four.downsampler },
                ratio,
                ..self.delay_four
            },
        }
    }

    /// One sample through the channel: the bank outputs on `x` are summed
    /// and halved, then run through the cascade; the result is the wet
    /// sample before gain scaling and dry mixing.
    pub open spec fn process(self, x: i64) -> (ChannelModel, i64) {
        let y1 = self.delay_one.out(x);
        let y2 = self.delay_two.out(x);
        let y3 = self.delay_three.out(x);
        let y4 = self.delay_four.out(x);
        let s12 = clip(y1 + y2, SAMPLE_MAX as int);
        let s34 = clip(y3 + y4, SAMPLE_MAX as int);
        let summed = (half(clip(s12 + s34, SAMPLE_MAX as int))) as i64;
        let c1 = self.allpass_one.out(summed);
        let c2 = self.allpass_two.out(c1);
        let c3 = self.allpass_three.out(c2);
        (
            ChannelModel {
                allpass_one: self.allpass_one.step(summed),
                allpass_two: self.allpass_two.step(c1),
                allpass_three: self.allpass_three.step(c2),
                delay_one: self.delay_one.step(x),
                delay_two: self.delay_two.step(x),
                delay_three: self.delay_three.step(x),
                delay_four: self.delay_four.step(x),
            },
            c3,
        )
    }

    /// The broadcast followed by one processed sample.
    pub open spec fn step(self, g_eff: i64, blend: i64, amount: u32, ratio: i64, x: i64) -> (
        ChannelModel,
        i64,
    ) {
        self.configured(g_eff, blend, amount, ratio).process(x)
    }

    /// A fresh channel over buffers of length `len`: allpass times 4410,
    /// 2999 and 2646 samples with gain 0.7 (negated on the second), delay
    /// bank times 1323, 1499, 1676 and 1852 samples with feedback 0.7.
    pub open spec fn fresh(len: int) -> ChannelModel {
        ChannelModel {
            allpass_one: AllpassModel::fresh(len, 4410, DEFAULT_G),
            allpass_two: AllpassModel::fresh(len, 2999, (-DEFAULT_G) as i64),
            allpass_three: AllpassModel::fresh(len, 2646, DEFAULT_G),
            delay_one: DegradedModel::fresh(len, 1323, DEFAULT_G),
            delay_two: DegradedModel::fresh(len, 1499, DEFAULT_G),
            delay_three: DegradedModel::fresh(len, 1676, DEFAULT_G),
            delay_four: DegradedModel::fresh(len, 1852, DEFAULT_G),
        }
    }
}

/// The mathematical state of the whole engine.
pub struct EngineModel {
    pub left: ChannelModel,
    pub right: ChannelModel,
    pub lfo: LfoModel,
    pub sample_rate: u32,
}

impl EngineModel {
    pub open spec fn wf(self) -> bool {
        &&& self.left.wf()
        &&& self.right.wf()
        &&& self.lfo.wf()
        &&& self.sample_rate >= 4
    }

    /// One stereo sample: glitch resolution, broadcast, both channel banks
    /// fed the left input, each channel mixed with its own dry input.
    pub open spec fn step(self, in_l: i64, in_r: i64, p: Params) -> (EngineModel, i64, i64) {
        let res = resolve(self.lfo, p.g, p.glitch, self.sample_rate as int);
        let lfo2 = res.0;
        let g_eff = res.1;
        let threshold = res.2;
        let blend = (Q_ONE - p.damping) as i64;
        let amount = (p.degrade_intensity as int / (Q_ONE as int)) as u32;
        let l = self.left.step(g_eff, blend, amount, p.degrade_speed, in_l);
        let r = self.right.step(g_eff, blend, amount, p.degrade_speed, in_l);
        (
            EngineModel { left: l.0, right: r.0, lfo: lfo2, sample_rate: self.sample_rate },
            mix(l.1, g_eff, in_l, threshold),
            mix(r.1, g_eff, in_r, threshold),
        )
    }

    /// A fresh engine: two fresh channels over quarter-second buffers and
    /// the shared oscillator at phase zero.
    pub open spec fn fresh(sample_rate: u32) -> EngineModel {
        EngineModel {
            left: ChannelModel::fresh(sample_rate as int / 4),
            right: ChannelModel::fresh(sample_rate as int / 4),
            lfo: LfoModel::fresh(LFO_FREQ),
            sample_rate,
        }
    }
}

/// The stereo reverb engine.
pub struct Reverb {
    allpass_one_l: Allpass,
    allpass_two_l: Allpass,
    allpass_three_l: Allpass,
    delay_one_l: DegradedDelay,
    delay_two_l: DegradedDelay,
    delay_three_l: DegradedDelay,
    delay_four_l: DegradedDelay,
    allpass_one_r: Allpass,
    allpass_two_r: Allpass,
    allpass_three_r: Allpass,
    delay_one_r: DegradedDelay,
    delay_two_r: DegradedDelay,
    delay_three_r: DegradedDelay,
    delay_four_r: DegradedDelay,
    lfo: Lfo,
    sample_rate: u32,
}

impl View for Reverb {
    type V = EngineModel;

    closed spec fn view(&self) -> EngineModel {
        EngineModel {
            left: ChannelModel {
                allpass_one: self.allpass_one_l@,
                allpass_two: self.allpass_two_l@,
                allpass_three: self.allpass_three_l@,
                delay_one: self.delay_one_l@,
                delay_two: self.delay_two_l@,
                delay_three: self.delay_three_l@,
                delay_four: self.delay_four_l@,
            },
            right: ChannelModel {
                allpass_one: self.allpass_one_r@,
                allpass_two: self.allpass_two_r@,
                allpass_three: self.allpass_three_r@,
                delay_one: self.delay_one_r@,
                delay_two: self.delay_two_r@,
                delay_three: self.delay_three_r@,
                delay_four: self.delay_four_r@,
            },
            lfo: self.lfo@,
            sample_rate: self.sample_rate,
        }
    }
}

/// The per-sample broadcast and processing of one channel: sets the gain on
/// the three allpasses (sign alternated on the second) and the feedback,
/// blend, amount and ratio on the four delays, then runs one sample through
/// bank and cascade.
fn channel_sample(
    ap1: &mut Allpass,
    ap2: &mut Allpass,
    ap3: &mut Allpass,
    d1: &mut DegradedDelay,
    d2: &mut DegradedDelay,
    d3: &mut DegradedDelay,
    d4: &mut DegradedDelay,
    g_eff: i64,
    blend: i64,
    amount: u32,
    ratio: i64,
    x: i64,
) -> (wet: i64)
    requires
        old(ap1)@.wf(),
        old(ap2)@.wf(),
        old(ap3)@.wf(),
        old(d1)@.wf(),
        old(d2)@.wf(),
        old(d3)@.wf(),
        old(d4)@.wf(),
        in_gain_range(g_eff),
        0 <= blend <= Q_ONE,
        0 <= ratio <= Q_ONE,
        in_sample_range(x),
    ensures
        ({
            let c = ChannelModel {
                allpass_one: old(ap1)@,
                allpass_two: old(ap2)@,
                allpass_three: old(ap3)@,
                delay_one: old(d1)@,
                delay_two: old(d2)@,
                delay_three: old(d3)@,
                delay_four: old(d4)@,
            };
            let after = c.step(g_eff, blend, amount, ratio, x);
            &&& final(ap1)@ == after.0.allpass_one
            &&& final(ap2)@ == after.0.allpass_two
            &&& final(ap3)@ == after.0.allpass_three
            &&& final(d1)@ == after.0.delay_one
            &&& final(d2)@ == after.0.delay_two
            &&& final(d3)@ == after.0.delay_three
            &&& final(d4)@ == after.0.delay_four
            &&& wet == after.1
            &&& after.0.wf()
            &&& in_sample_range(wet)
        }),
{
    ap1.set_g(g_eff);
    ap2.set_g(-g_eff);
    ap3.set_g(g_eff);
    d1.set_feedback(g_eff);
    d2.set_feedback(g_eff);
    d3.set_feedback(g_eff);
    d4.set_feedback(g_eff);
    d1.set_a(blend);
    d2.set_a(blend);
    d3.set_a(blend);
    d4.set_a(blend);
    d1.set_amt(amount);
    d2.set_amt(amount);
    d3.set_amt(amount);
    d4.set_amt(amount);
    d1.set_ratio(ratio);
    d2.set_ratio(ratio);
    d3.set_ratio(ratio);
    d4.set_ratio(ratio);
    let y1 = d1.process_sample(x);
    let y2 = d2.process_sample(x);
    let y3 = d3.process_sample(x);
    let y4 = d4.process_sample(x);
    let summed = half_sample(sat_add(sat_add(y1, y2), sat_add(y3, y4)));
    let c1 = ap1.process_sample(summed);
    let c2 = ap2.process_sample(c1);
    ap3.process_sample(c2)
}

impl Reverb {
    /// A fresh engine for the given sample rate: fixed delay-line
    /// capacities of a quarter second derive from it.
    pub fn new(sample_rate: u32) -> (r: Reverb)
        requires
            sample_rate >= 4,
        ensures
            r@ == EngineModel::fresh(sample_rate),
            r@.wf(),
    {
        Reverb {
            allpass_one_l: Allpass::new(sample_rate, 4410, DEFAULT_G),
            allpass_two_l: Allpass::new(sample_rate, 2999, -DEFAULT_G),
            allpass_three_l: Allpass::new(sample_rate, 2646, DEFAULT_G),
            delay_one_l: DegradedDelay::new(sample_rate, 1323, DEFAULT_G),
            delay_two_l: DegradedDelay::new(sample_rate, 1499, DEFAULT_G),
            delay_three_l: DegradedDelay::new(sample_rate, 1676, DEFAULT_G),
            delay_four_l: DegradedDelay::new(sample_rate, 1852, DEFAULT_G),
            allpass_one_r: Allpass::new(sample_rate, 4410, DEFAULT_G),
            allpass_two_r: Allpass::new(sample_rate, 2999, -DEFAULT_G),
            allpass_three_r: Allpass::new(sample_rate, 2646, DEFAULT_G),
            delay_one_r: DegradedDelay::new(sample_rate, 1323, DEFAULT_G),
            delay_two_r: DegradedDelay::new(sample_rate, 1499, DEFAULT_G),
            delay_three_r: DegradedDelay::new(sample_rate, 1676, DEFAULT_G),
            delay_four_r: DegradedDelay::new(sample_rate, 1852, DEFAULT_G),
            lfo: Lfo::new(LFO_FREQ),
            sample_rate,
        }
    }

    /// One stereo sample through the engine under the given control values:
    /// glitch resolution, coefficient broadcast, the parallel banks (both
    /// fed the left input), the cascades, gain scaling, dry mix and clamp.
    pub fn process_sample(&mut self, in_l: i64, in_r: i64, p: &Params) -> (out: (i64, i64))
        requires
            old(self)@.wf(),
            p.wf(),
            in_sample_range(in_l),
            in_sample_range(in_r),
        ensures
            ({
                let after = old(self)@.step(in_l, in_r, *p);
                &&& final(self)@ == after.0
                &&& out.0 == after.1
                &&& out.1 == after.2
                &&& final(self)@.wf()
            }),
            p.glitch <= WACKY_LIMIT ==> -Q_ONE <= out.0 <= Q_ONE && -Q_ONE <= out.1 <= Q_ONE,
    {
        let mut g_eff: i64 = p.g;
        let mut threshold: i64 = Q_ONE;
        if p.glitch > WACKY_LIMIT {
            let s = self.lfo.next_sample(self.sample_rate);
            proof {
                crate::fixed::lemma_qmul_contract(MOD_DEPTH as int, s as int);
            }
            g_eff = p.g + gain_mul(MOD_DEPTH, s);
            threshold = WACKY_THRESHOLD;
        } else if p.glitch > FORCED_LIMIT {
            g_eff = Q_ONE;
        }
        let blend = Q_ONE - p.damping;
        let amount: u32 = ((p.degrade_intensity as u64) / (Q_ONE as u64)) as u32;
        let wet_l = channel_sample(
            &mut self.allpass_one_l,
            &mut self.allpass_two_l,
            &mut self.allpass_three_l,
            &mut self.delay_one_l,
            &mut self.delay_two_l,
            &mut self.delay_three_l,
            &mut self.delay_four_l,
            g_eff,
            blend,
            amount,
            p.degrade_speed,
            in_l,
        );
        let wet_r = channel_sample(
            &mut self.allpass_one_r,
            &mut self.allpass_two_r,
            &mut self.allpass_three_r,
            &mut self.delay_one_r,
            &mut self.delay_two_r,
            &mut self.delay_three_r,
            &mut self.delay_four_r,
            g_eff,
            blend,
            amount,
            p.degrade_speed,
            in_l,
        );
        let out_l = clamp_sample(sat_add(coef_mul(wet_l, g_eff), in_l), threshold);
        let out_r = clamp_sample(sat_add(coef_mul(wet_r, g_eff), in_r), threshold);
        (out_l, out_r)
    }
}

} // verus!
