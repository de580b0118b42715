//! Deterministic noise engines.
//!
//! All noise colours share one 64-bit linear-congruential generator that is
//! re-seeded at the start of every render, so the stream of 15-bit draws is
//! a pure function of the sample count.  White and brown noise take one
//! draw per sample; pink noise follows the Voss–McCartney construction with
//! sixteen octave rows that are redrawn when the corresponding bit of the
//! sample index flips.

use vstd::prelude::*;
use vstd::arithmetic::div_mod::lemma_add_mod_noop;
use vstd::arithmetic::div_mod::lemma_mod_sub_multiples_vanish;
use vstd::arithmetic::div_mod::lemma_small_mod;

verus! {

/// Multiplier of the linear-congruential generator.
pub const LCG_MULTIPLIER: u64 = 1103515245;

/// Increment of the linear-congruential generator.
pub const LCG_INCREMENT: u64 = 12345;

/// Seed installed at the start of every render.
pub const LCG_SEED: u64 = 12345;

/// One generator step: multiply, add, keep the low 64 bits.
pub open spec fn lcg_next(s: u64) -> u64 {
    ((s * LCG_MULTIPLIER + LCG_INCREMENT) % 0x1_0000_0000_0000_0000) as u64
}

/// Generator state after `k` steps from the fixed seed.
pub open spec fn lcg_seed_at(k: nat) -> u64
    decreases k,
{
    if k == 0 {
        LCG_SEED
    } else {
        lcg_next(lcg_seed_at((k - 1) as nat))
    }
}

/// The 15-bit value a state yields: bits 16..31 of the state.
pub open spec fn draw(s: u64) -> u16 {
    ((s >> 16) & 0x7fff) as u16
}

/// The `i`-th white-noise draw of a render.
pub open spec fn white_raw_at(i: nat) -> u16 {
    draw(lcg_seed_at(i + 1))
}

/// Law: every draw lies in `[0, 32767]`, so its normalized value
/// `draw / 32767 * 2 - 1` lies in `[-1, 1]` and the noise gain keeps every
/// noise sample inside the headroom amplitude.
pub proof fn lemma_draw_in_range(s: u64)
    ensures
        draw(s) <= 0x7fff,
{
    assert((s >> 16) & 0x7fff <= 0x7fff) by (bit_vector);
}

proof fn lemma_lcg_step_wraps(s: u64)
    ensures
        vstd::wrapping::u64_specs::wrapping_add(
            vstd::wrapping::u64_specs::wrapping_mul(s, LCG_MULTIPLIER),
            LCG_INCREMENT,
        ) == lcg_next(s),
{
    let m: int = 0x1_0000_0000_0000_0000;
    let t: u64 = vstd::wrapping::u64_specs::wrapping_mul(s, LCG_MULTIPLIER);
    assert(t == (s * LCG_MULTIPLIER) % m);
    lemma_add_mod_noop(s * LCG_MULTIPLIER, LCG_INCREMENT as int, m);
    lemma_small_mod(LCG_INCREMENT as nat, m as nat);
    assert((t + LCG_INCREMENT) % m == (s * LCG_MULTIPLIER + LCG_INCREMENT) % m);
    if t + LCG_INCREMENT > u64::MAX {
        lemma_mod_sub_multiples_vanish(t + LCG_INCREMENT, m);
        lemma_small_mod((t + LCG_INCREMENT - m) as nat, m as nat);
    } else {
        lemma_small_mod((t + LCG_INCREMENT) as nat, m as nat);
    }
}

/// Advance the generator by one step.
fn lcg_step(seed: u64) -> (r: u64)
    ensures
        r == lcg_next(seed),
{
    proof {
        lemma_lcg_step_wraps(seed);
    }
    seed.wrapping_mul(LCG_MULTIPLIER).wrapping_add(LCG_INCREMENT)
}

/// Extract the 15-bit draw of a state.
fn extract_draw(seed: u64) -> (w: u16)
    ensures
        w == draw(seed),
{
    let masked: u64 = (seed >> 16u64) & 0x7fff;
    proof {
        assert((seed >> 16u64) & 0x7fff <= 0x7fff) by (bit_vector);
    }
    masked as u16
}

/// The raw 15-bit draws behind a white-noise (or brown-noise) block of
/// `count` samples.  Each draw `r` stands for the normalized sample
/// `r / 32767 * 2 - 1` before gain; the stream is a function of `count`
/// alone.
pub fn white_noise_raw(count: usize) -> (r: Vec<u16>)
    ensures
        r@.len() == count,
        forall|i: int| 0 <= i < count ==> r@[i] == white_raw_at(i as nat),
{
    let mut out: Vec<u16> = Vec::with_capacity(count);
    let mut seed: u64 = LCG_SEED;
    let mut i: usize = 0;
    while i < count
        invariant
            0 <= i <= count,
            seed == lcg_seed_at(i as nat),
            out@.len() == i,
            forall|j: int| 0 <= j < i ==> out@[j] == white_raw_at(j as nat),
        decreases count - i,
    {
        seed = lcg_step(seed);
        let w = extract_draw(seed);
        out.push(w);
        i = i + 1;
    }
    out
}

/// Determinism of white noise: two renders of equal length agree draw for
/// draw, independent of run or platform, because every draw is a function
/// of its index alone.
pub proof fn lemma_white_noise_deterministic(a: Seq<u16>, b: Seq<u16>)
    requires
        a.len() == b.len(),
        forall|i: int| 0 <= i < a.len() ==> a[i] == white_raw_at(i as nat),
        forall|i: int| 0 <= i < b.len() ==> b[i] == white_raw_at(i as nat),
    ensures
        a == b,
{
    assert(a =~= b);
}

/// Pink-noise generator state: the LCG state plus the sixteen octave rows.
pub struct PinkState {
    pub seed: u64,
    pub rows: Seq<u16>,
}

/// Index whose bits are compared with those of `i`: its predecessor, with
/// the index arithmetic wrapping below zero.
pub open spec fn prev_index(i: u64) -> u64 {
    if i == 0 {
        0xffff_ffff_ffff_ffff
    } else {
        (i - 1) as u64
    }
}

/// Row `j` is redrawn at sample `i` when bit `j` of the index flipped.
pub open spec fn row_changed(i: u64, j: u64) -> bool
    recommends
        j < 16,
{
    (i >> j) & 1 != (prev_index(i) >> j) & 1
}

/// State after the white draw of a sample, before any row is visited.
pub open spec fn pink_after_white(st: PinkState) -> PinkState {
    PinkState { seed: lcg_next(st.seed), rows: st.rows }
}

/// State after visiting rows `0 .. j` of sample `i`: each changed row
/// takes a fresh draw, in row order.
pub open spec fn pink_rows_step(st: PinkState, i: u64, j: nat) -> PinkState
    recommends
        j <= 16,
    decreases j,
{
    if j == 0 {
        st
    } else {
        let prev = pink_rows_step(st, i, (j - 1) as nat);
        if row_changed(i, (j - 1) as u64) {
            PinkState {
                seed: lcg_next(prev.seed),
                rows: prev.rows.update(j - 1, draw(lcg_next(prev.seed))),
            }
        } else {
            prev
        }
    }
}

/// Engine state once samples `0 .. i` are fully processed.  The initial
/// row contents are never read: at sample zero every bit of the index
/// flips, so all sixteen rows are drawn afresh.
pub open spec fn pink_state_at(i: nat) -> PinkState
    recommends
        i <= u64::MAX,
    decreases i,
{
    if i == 0 {
        PinkState { seed: LCG_SEED, rows: Seq::new(16, |j: int| 0u16) }
    } else {
        pink_rows_step(pink_after_white(pink_state_at((i - 1) as nat)), (i - 1) as u64, 16)
    }
}

/// The white draw of pink-noise sample `i`.
pub open spec fn pink_white_at(i: nat) -> u16 {
    draw(lcg_next(pink_state_at(i).seed))
}

/// Octave row `j` as it stands once sample `i` is processed.
pub open spec fn pink_row_at(i: nat, j: nat) -> u16
    recommends
        j < 16,
{
    pink_state_at(i + 1).rows[j as int]
}

/// The flattened pink-noise stream: seventeen values per sample — the
/// white draw, then the sixteen rows.  Their normalized values summed and
/// divided by seventeen give the sample before gain.
pub open spec fn pink_flat_at(k: nat) -> u16 {
    if k % 17 == 0 {
        pink_white_at(k / 17)
    } else {
        pink_row_at(k / 17, ((k % 17) - 1) as nat)
    }
}

/// Whether bit `j` of the sample index flipped going into sample `i`.
fn row_bit_changed(i: usize, j: usize) -> (c: bool)
    requires
        j < 16,
    ensures
        c == row_changed(i as u64, j as u64),
{
    let iu: u64 = i as u64;
    let prev: u64 = if i == 0 {
        0xffff_ffff_ffff_ffff
    } else {
        iu - 1
    };
    (iu >> j as u64) & 1 != (prev >> j as u64) & 1
}

/// The raw 15-bit draws behind a pink-noise block of `count` samples,
/// seventeen per sample: the fresh white draw, then the sixteen octave
/// rows as they stand for that sample.  The stream is a function of
/// `count` alone.
pub fn pink_noise_raw(count: usize) -> (r: Vec<u16>)
    requires
        count * 17 <= usize::MAX,
    ensures
        r@.len() == count * 17,
        forall|k: int| 0 <= k < count * 17 ==> r@[k] == pink_flat_at(k as nat),
{
    let mut out: Vec<u16> = Vec::new();
    let mut rows: Vec<u16> = vec![0u16; 16];
    let mut seed: u64 = LCG_SEED;
    let mut i: usize = 0;
    proof {
        assert(rows@ =~= pink_state_at(0).rows);
    }
    while i < count
        invariant
            0 <= i <= count,
            count * 17 <= usize::MAX,
            seed == pink_state_at(i as nat).seed,
            rows@ == pink_state_at(i as nat).rows,
            rows@.len() == 16,
            out@.len() == i * 17,
            forall|k: int| 0 <= k < i * 17 ==> out@[k] == pink_flat_at(k as nat),
        decreases count - i,
    {
        let ghost st_w = pink_after_white(pink_state_at(i as nat));
        seed = lcg_step(seed);
        let white = extract_draw(seed);
        proof {
            assert(seed == st_w.seed);
            assert(rows@ == pink_rows_step(st_w, i as u64, 0).rows);
            assert(seed == pink_rows_step(st_w, i as u64, 0).seed);
        }
        let mut j: usize = 0;
        while j < 16
            invariant
                0 <= j <= 16,
                i < count,
                seed == pink_rows_step(st_w, i as u64, j as nat).seed,
                rows@ == pink_rows_step(st_w, i as u64, j as nat).rows,
                rows@.len() == 16,
            decreases 16 - j,
        {
            if row_bit_changed(i, j) {
                seed = lcg_step(seed);
                let d = extract_draw(seed);
                rows.set(j, d);
            }
            j = j + 1;
        }
        proof {
            assert(pink_state_at((i + 1) as nat) == pink_rows_step(st_w, i as u64, 16));
        }
        let ghost out_before = out@;
        out.push(white);
        let mut j2: usize = 0;
        while j2 < 16
            invariant
                0 <= j2 <= 16,
                rows@.len() == 16,
                out@ == out_before + seq![white] + rows@.take(j2 as int),
            decreases 16 - j2,
        {
            out.push(rows[j2]);
            proof {
                assert(rows@.take(j2 + 1) =~= rows@.take(j2 as int) + seq![rows@[j2 as int]]);
                assert(out@ =~= out_before + seq![white] + rows@.take(j2 + 1));
            }
            j2 = j2 + 1;
        }
        proof {
            assert(rows@.take(16) =~= rows@);
            assert(out@.len() == (i + 1) * 17);
            assert forall|k: int| 0 <= k < (i + 1) * 17 implies out@[k] == pink_flat_at(
                k as nat,
            ) by {
                if k < i * 17 {
                    assert(out@[k] == out_before[k]);
                } else {
                    let r = k - i * 17;
                    assert(k == 17 * (i as int) + r);
                    assert(k as nat / 17 == i as nat && k as nat % 17 == r as nat) by (nonlinear_arith)
                        requires
                            k == 17 * (i as int) + r,
                            0 <= r < 17,
                            0 <= i,
                            0 <= k,
                    ;
                    if r == 0 {
                        assert(out@[k] == white);
                    } else {
                        assert(out@[k] == rows@[r - 1]);
                    }
                }
            }
        }
        i = i + 1;
    }
    proof {
        assert(i * 17 == count * 17);
    }
    out
}

/// Determinism of pink noise: two renders of equal length agree value for
/// value, because every entry of the flattened stream is a function of its
/// index alone.
pub proof fn lemma_pink_noise_deterministic(a: Seq<u16>, b: Seq<u16>)
    requires
        a.len() == b.len(),
        forall|k: int| 0 <= k < a.len() ==> a[k] == pink_flat_at(k as nat),
        forall|k: int| 0 <= k < b.len() ==> b[k] == pink_flat_at(k as nat),
    ensures
        a == b,
{
    assert(a =~= b);
}

} // verus!
