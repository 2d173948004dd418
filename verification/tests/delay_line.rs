use reverb_core::delay::Delay;
use reverb_core::fixed::Q_ONE;

// A fresh line of length 10 (sample rate 40) with time 3: a unit impulse
// comes back exactly at step 3 and nowhere else, over two full buffer
// cycles.
#[test]
fn impulse_emerges_at_delay_time() {
    let mut d = Delay::new(40, 3);
    for n in 0..25 {
        let input = if n == 0 { Q_ONE } else { 0 };
        let out = d.process_sample(input);
        if n == 3 {
            assert_eq!(out, Q_ONE);
        } else {
            assert_eq!(out, 0);
        }
    }
}

// With time zero the write lands before the read at the same slot, so the
// line is an identity from the first sample on.
#[test]
fn zero_time_is_identity_from_fresh() {
    let mut d = Delay::new(40, 0);
    let inputs = [5, -7, Q_ONE, 0, -Q_ONE, 123456, -1];
    for &x in inputs.iter() {
        assert_eq!(d.process_sample(x), x);
    }
}

// set_time(0) on a line whose write cursor is still at zero makes every
// subsequent call return its input.
#[test]
fn set_time_zero_makes_identity() {
    let mut d = Delay::new(40, 7);
    d.set_time(0);
    let inputs = [1, 2, 3, -4, 5, 6, 7, 8, 9, 10, 11, 12];
    for &x in inputs.iter() {
        assert_eq!(d.process_sample(x), x);
    }
}

// Delay times beyond the buffer length alias: with length 10, time 13
// behaves exactly like time 3.
#[test]
fn long_times_alias_modulo_length() {
    let mut a = Delay::new(40, 13);
    let mut b = Delay::new(40, 3);
    for n in 0..30 {
        let input = if n % 7 == 0 { Q_ONE } else { n };
        assert_eq!(a.process_sample(input), b.process_sample(input));
    }
}

// Negative times wrap the same way: time -7 on a length-10 line reads the
// same slot as time 3.
#[test]
fn negative_times_wrap() {
    let mut a = Delay::new(40, -7);
    let mut b = Delay::new(40, 3);
    for n in 0..30 {
        let input = n * 1000 - 15000;
        assert_eq!(a.process_sample(input), b.process_sample(input));
    }
}
