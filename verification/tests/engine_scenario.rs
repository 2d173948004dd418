use reverb_core::engine::{Params, Reverb};
use reverb_core::fixed::Q_ONE;

fn default_params() -> Params {
    let p = Params::default();
    assert_eq!(p.g, 11744051); // 0.7 in Q24
    assert_eq!(p.damping, 0);
    assert_eq!(p.degrade_intensity, 0);
    assert_eq!(p.degrade_speed, 0);
    assert_eq!(p.glitch, 0);
    p
}

// The end-to-end scenario: an engine at 44100 Hz with default parameters,
// fed a unit impulse on the left channel and silence on the right.  Sample
// zero carries only the dry path; the wet signal first appears exactly at
// the delay-bank times 1323, 1499, 1676 and 1852, with the same value on
// both channels (both banks read the left input); everything stays within
// the default clamp of [-1, 1].
#[test]
fn impulse_reveals_parallel_bank() {
    let mut r = Reverb::new(44100);
    let p = default_params();
    for n in 0..1900i64 {
        let in_l = if n == 0 { Q_ONE } else { 0 };
        let (out_l, out_r) = r.process_sample(in_l, 0, &p);
        assert!(-Q_ONE <= out_l && out_l <= Q_ONE);
        assert!(-Q_ONE <= out_r && out_r <= Q_ONE);
        match n {
            0 => {
                assert_eq!(out_l, Q_ONE);
                assert_eq!(out_r, 0);
            }
            1323 | 1499 | 1676 | 1852 => {
                assert_eq!(out_l, 2014103);
                assert_eq!(out_r, 2014103);
            }
            _ => {
                assert_eq!(out_l, 0);
                assert_eq!(out_r, 0);
            }
        }
    }
}

// Forced mode (selector between 0.3 and 0.7) pins the gain to one: the
// first bank echo comes back as exactly half the impulse (four equal
// contributions summed and halved, unity gain on the wet path).
#[test]
fn forced_mode_has_unity_gain() {
    let mut r = Reverb::new(44100);
    let p = Params { glitch: Q_ONE / 2, ..default_params() };
    for n in 0..1325i64 {
        let in_l = if n == 0 { Q_ONE } else { 0 };
        let (out_l, _) = r.process_sample(in_l, 0, &p);
        match n {
            0 => assert_eq!(out_l, Q_ONE),
            1323 => assert_eq!(out_l, Q_ONE / 2),
            1324 => assert_eq!(out_l, 0),
            _ => {}
        }
    }
}

// Wacky mode (selector above 0.7) tightens the output clamp to 0.25: even
// a full-scale dry input cannot push the output past it.
#[test]
fn wacky_mode_clamps_to_quarter() {
    let mut r = Reverb::new(44100);
    let p = Params { glitch: Q_ONE, ..default_params() };
    for _ in 0..50 {
        let (out_l, out_r) = r.process_sample(Q_ONE, -Q_ONE, &p);
        assert!(-Q_ONE / 4 <= out_l && out_l <= Q_ONE / 4);
        assert!(-Q_ONE / 4 <= out_r && out_r <= Q_ONE / 4);
    }
    let (out_l, out_r) = r.process_sample(Q_ONE, -Q_ONE, &p);
    assert_eq!(out_l, Q_ONE / 4);
    assert_eq!(out_r, -Q_ONE / 4);
}

// A run with damping, degradation and a non-trivial gain: the first bank
// echo carries the exact value of the damped, degraded network.
#[test]
fn degraded_run_exact_first_echo() {
    let mut r = Reverb::new(44100);
    let p = Params {
        g: 10066329,                  // 0.6 in Q24
        damping: Q_ONE / 4,
        degrade_intensity: 41943040,  // 2.5 in Q24, truncated to amount 2
        degrade_speed: Q_ONE / 2,
        glitch: 0,
    };
    let mut at_1323: i64 = 0;
    for n in 0..1340i64 {
        let in_l = if n == 0 { Q_ONE } else { 0 };
        let (out_l, _) = r.process_sample(in_l, 0, &p);
        if n == 1323 {
            at_1323 = out_l;
        }
    }
    assert_eq!(at_1323, 1087162);
}
