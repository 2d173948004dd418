use reverb_core::feedback::{Allpass, DelayWithFeedback};
use reverb_core::fixed::Q_ONE;

// The coupled pair with length 4, time 1 and feedback 0.5: the impulse
// emerges after one step, and every third step the feedback path (one
// sample of extra latency through the secondary line, two samples of
// primary delay) returns it halved again.
#[test]
fn feedback_pair_impulse_decays_by_half() {
    let mut p = DelayWithFeedback::new(16, 1, Q_ONE / 2);
    let expected = [0, Q_ONE, 0, 0, Q_ONE / 2, 0, 0, Q_ONE / 4];
    for (n, &want) in expected.iter().enumerate() {
        let input = if n == 0 { Q_ONE } else { 0 };
        assert_eq!(p.process_sample(input), want);
    }
}

// An allpass with coefficient zero passes the signal through its inner
// feedback pair unweighted: it tracks a bare pair with the same settings.
#[test]
fn allpass_zero_g_matches_bare_pair() {
    let mut a = Allpass::new(100, 5, 0);
    let mut p = DelayWithFeedback::new(100, 5, 0);
    for n in 0..60 {
        let input = (n * 37 % 11) * 100000 - 500000;
        assert_eq!(a.process_sample(input), p.process_sample(input));
    }
}

// The Schroeder response on the first sample of an impulse: the delayed
// branch is still silent, so the output is exactly -g times the input.
#[test]
fn allpass_first_output_is_minus_g() {
    let g = 11744051; // 0.7 in Q24
    let mut a = Allpass::new(44100, 100, g);
    assert_eq!(a.process_sample(Q_ONE), -g);
}

// set_g updates the filter and its inner pair together: forcing g to zero
// right after construction makes the filter behave as a bare pair.
#[test]
fn set_g_applies_to_filter_and_pair() {
    let mut a = Allpass::new(100, 5, 11744051);
    a.set_g(0);
    let mut p = DelayWithFeedback::new(100, 5, 0);
    for n in 0..40 {
        let input = n * 250000 - 5000000;
        assert_eq!(a.process_sample(input), p.process_sample(input));
    }
}

// set_feedback takes effect on the next call: with feedback forced to zero
// the pair is two chained delays and the impulse never returns.
#[test]
fn pair_without_feedback_echoes_once() {
    let mut p = DelayWithFeedback::new(16, 1, Q_ONE / 2);
    p.set_feedback(0);
    for n in 0..20 {
        let input = if n == 0 { Q_ONE } else { 0 };
        let out = p.process_sample(input);
        if n == 1 {
            assert_eq!(out, Q_ONE);
        } else {
            assert_eq!(out, 0);
        }
    }
}
