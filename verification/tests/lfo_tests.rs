use reverb_core::lfo::Lfo;
use reverb_core::fixed::Q_ONE;

// At phase zero the squared angle is zero and the sine of zero is zero.
#[test]
fn first_sample_is_zero() {
    let mut l = Lfo::new(2 * Q_ONE);
    assert_eq!(l.next_sample(44100), 0);
}

// One step at 2 Hz over a 100 Hz rate advances the phase by 1/50 of a
// turn; the second sample is the sine of the squared angle at that phase.
#[test]
fn second_sample_exact_value() {
    let mut l = Lfo::new(2 * Q_ONE);
    assert_eq!(l.next_sample(100), 0);
    assert_eq!(l.next_sample(100), 269581);
}

// Over several full periods the phase keeps wrapping and every output
// stays within [-1, 1]; the curve is not stuck at zero.
#[test]
fn output_bounded_over_full_periods() {
    let mut l = Lfo::new(2 * Q_ONE);
    let mut nonzero: usize = 0;
    for _ in 0..200 {
        let s = l.next_sample(100);
        assert!(-Q_ONE <= s && s <= Q_ONE);
        if s != 0 {
            nonzero += 1;
        }
    }
    assert_eq!(nonzero, 199);
}
