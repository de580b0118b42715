//! Linear fade envelopes.
//!
//! Envelope values are exact rationals `num / F` with a fixed positive
//! denominator `F`, so every statement here is made about the integer
//! numerators; ordering facts about the numerators carry over verbatim to
//! the envelope values.

use vstd::prelude::*;

verus! {

/// Numerator of the precomputed fade envelope at index `i` of an
/// `n`-sample block with ramp length `f` (the envelope value is `num / f`):
/// `i` on the rising head, `n - i` on the falling tail, `f` (that is, 1) in
/// between.
pub open spec fn fade_env_num(i: int, n: int, f: int) -> int
    recommends
        0 <= i < n,
        0 < f,
{
    if i < f {
        i
    } else if i >= n - f {
        n - i
    } else {
        f
    }
}

/// Numerator of the in-place fade gain at index `i`: the head ramps over
/// `i / f` for the first `f` samples and the tail mirrors it, reaching
/// zero again at the last sample.
pub open spec fn fade_gain_num(i: int, n: int, f: int) -> int
    recommends
        0 <= i < n,
        0 < 2 * f <= n,
{
    if i < f {
        i
    } else if i >= n - f {
        n - 1 - i
    } else {
        f
    }
}

/// Ramp length of the in-place fade: the requested length, but never more
/// than half the block.
pub fn fade_length(block_len: usize, fade_samples: usize) -> (f: usize)
    ensures
        f == if fade_samples <= block_len / 2 {
            fade_samples as int
        } else {
            block_len as int / 2
        },
        2 * f <= block_len,
{
    let half = block_len / 2;
    if fade_samples <= half {
        fade_samples
    } else {
        half
    }
}

/// Numerator of the precomputed fade envelope at index `i`.
pub fn fade_env_num_at(i: usize, n: usize, f: usize) -> (r: usize)
    requires
        i < n,
    ensures
        r == fade_env_num(i as int, n as int, f as int),
{
    if i < f {
        i
    } else if i >= n - f {
        n - i
    } else {
        f
    }
}

/// Numerator of the in-place fade gain at index `i`.
pub fn fade_gain_num_at(i: usize, n: usize, f: usize) -> (r: usize)
    requires
        i < n,
        2 * f <= n,
    ensures
        r == fade_gain_num(i as int, n as int, f as int),
{
    if i < f {
        i
    } else if i >= n - f {
        n - 1 - i
    } else {
        f
    }
}

/// Law: the fade is monotone non-decreasing over the head ramp `[0, f)`.
/// The envelope values are the numerators divided by the common positive
/// denominator `f`, so ordering of numerators is ordering of values.
pub proof fn lemma_fade_in_monotone(n: int, f: int, i: int, j: int)
    requires
        0 < 2 * f <= n,
        0 <= i <= j < f,
    ensures
        fade_gain_num(i, n, f) <= fade_gain_num(j, n, f),
{
}

/// Law: the fade is monotone non-increasing over the tail ramp `[n-f, n)`.
pub proof fn lemma_fade_out_monotone(n: int, f: int, i: int, j: int)
    requires
        0 < 2 * f <= n,
        n - f <= i <= j < n,
    ensures
        fade_gain_num(i, n, f) >= fade_gain_num(j, n, f),
{
}

/// Law: a faded block is exactly silent at both edges, so abutting faded
/// blocks join at zero.
pub proof fn lemma_fade_edges_silent(n: int, f: int)
    requires
        0 < 2 * f <= n,
    ensures
        fade_gain_num(0, n, f) == 0,
        fade_gain_num(n - 1, n, f) == 0,
{
}

} // verus!
