use reverb_core::degrade::{DegradedDelay, Downsampler};
use reverb_core::feedback::DelayWithFeedback;
use reverb_core::fixed::Q_ONE;

// With crossfade ratio zero the decimator is an identity, whatever the
// decimation amount.
#[test]
fn ratio_zero_is_identity() {
    for amount in [0u32, 1, 2, 3, 7, 29] {
        let mut d = Downsampler::new();
        d.set_amt(amount);
        for n in 0..20i64 {
            let x = n * 777777 - 7000000;
            assert_eq!(d.process_sample(x, 0), x);
        }
    }
}

// With ratio one and amount zero the counter lands on zero at every call,
// so every sample is latched and the output equals the input.
#[test]
fn full_ratio_amount_zero_latches_every_sample() {
    let mut d = Downsampler::new();
    d.set_amt(0);
    for n in 0..20i64 {
        let x = n * 999999 - 9000000;
        assert_eq!(d.process_sample(x, Q_ONE), x);
    }
}

// Amount 2 (modulus 3): the counter runs 2, 1, 0, so the held sample
// updates on every third call; with ratio one the output is the held
// sample.  The counter advances by two, so the hold period depends on the
// parity of amount + 1.
#[test]
fn hold_pattern_with_amount_two() {
    let mut d = Downsampler::new();
    d.set_amt(2);
    let mut outs: Vec<i64> = Vec::new();
    for n in 0..8i64 {
        outs.push(d.process_sample((n + 1) * Q_ONE, Q_ONE));
    }
    let q3: i64 = 3 * Q_ONE;
    let q6: i64 = 6 * Q_ONE;
    assert_eq!(outs, vec![0, 0, q3, q3, q3, q6, q6, q6]);
}

// Amount 1 (modulus 2): the counter advances by two and so always lands on
// zero — every sample is latched, exactly as with amount 0.  This parity
// asymmetry is kept on purpose.
#[test]
fn odd_modulus_latches_like_amount_zero() {
    let mut d = Downsampler::new();
    d.set_amt(1);
    for n in 0..12i64 {
        let x = n * 123456 + 1;
        assert_eq!(d.process_sample(x, Q_ONE), x);
    }
}

// With ratio zero the degraded feedback path carries the raw feedback
// sample, so the degraded delay behaves exactly like the plain pair.
#[test]
fn degraded_delay_with_ratio_zero_matches_pair() {
    let mut d = DegradedDelay::new(16, 1, Q_ONE / 2);
    let mut p = DelayWithFeedback::new(16, 1, Q_ONE / 2);
    d.set_ratio(0);
    d.set_a(Q_ONE);
    for n in 0..30 {
        let input = if n == 0 { Q_ONE } else { 0 };
        assert_eq!(d.process_sample(input), p.process_sample(input));
    }
}

// Full degradation with amount zero also reduces to the plain pair: every
// sample is latched, so the downsampled branch equals the raw branch.
#[test]
fn degraded_delay_amount_zero_full_ratio_matches_pair() {
    let mut d = DegradedDelay::new(16, 1, Q_ONE / 2);
    let mut p = DelayWithFeedback::new(16, 1, Q_ONE / 2);
    d.set_ratio(Q_ONE);
    d.set_a(Q_ONE);
    d.set_amt(0);
    for n in 0..30 {
        let input = if n == 0 { Q_ONE } else { 0 };
        assert_eq!(d.process_sample(input), p.process_sample(input));
    }
}
