//! Fade envelope checks: ramp length, monotonicity of the two ramps, and
//! silence at the edges of a faded block.

use spirit::envelope::{fade_env_num_at, fade_gain_num_at, fade_length};

#[test]
fn ramp_length_is_capped_at_half_the_block() {
    assert_eq!(fade_length(1000, 100), 100);
    assert_eq!(fade_length(10, 100), 5);
    assert_eq!(fade_length(11, 100), 5);
    assert_eq!(fade_length(0, 5), 0);
    assert_eq!(fade_length(200, 100), 100);
}

#[test]
fn fade_is_monotone_on_both_ramps() {
    let n = 100usize;
    let f = fade_length(n, 10);
    // Non-decreasing over [0, f).
    for i in 1..f {
        assert!(fade_gain_num_at(i - 1, n, f) <= fade_gain_num_at(i, n, f));
    }
    // Non-increasing over [n - f, n).
    for i in (n - f + 1)..n {
        assert!(fade_gain_num_at(i - 1, n, f) >= fade_gain_num_at(i, n, f));
    }
    // The same holds of the envelope values num / f.
    for i in 1..f {
        let a = fade_gain_num_at(i - 1, n, f) as f64 / f as f64;
        let b = fade_gain_num_at(i, n, f) as f64 / f as f64;
        assert!(a <= b);
        assert!((0.0..=1.0).contains(&b));
    }
}

#[test]
fn faded_blocks_are_silent_at_the_edges() {
    // With a 2-second fade at 44100 Hz on a longer block, the first and
    // last gains are exactly zero, so concatenated faded blocks join at
    // zero.
    let n = 10 * 44100usize;
    let f = fade_length(n, 2 * 44100);
    assert_eq!(f, 2 * 44100);
    assert_eq!(fade_gain_num_at(0, n, f), 0);
    assert_eq!(fade_gain_num_at(n - 1, n, f), 0);
    // Interior samples are untouched: gain 1 (numerator f).
    assert_eq!(fade_gain_num_at(n / 2, n, f), f);
}

#[test]
fn precomputed_envelope_shape() {
    // The long-form envelope: rising head, flat middle, falling tail that
    // ends one step above zero.
    let n = 88200usize; // 2 s at 44100 Hz
    let f = 22050usize; // 0.5 s ramps
    assert_eq!(fade_env_num_at(0, n, f), 0);
    assert_eq!(fade_env_num_at(f / 2, n, f), f / 2);
    assert_eq!(fade_env_num_at(n / 2, n, f), f);
    assert_eq!(fade_env_num_at(n - f, n, f), f);
    assert_eq!(fade_env_num_at(n - 1, n, f), 1);
}
