//! Scalar PCM sample handling: saturating clamp per bit depth and the
//! little-endian byte image of each encoded sample.

use vstd::prelude::*;

use crate::config::bit_depth_allowed;

verus! {

/// Largest integer sample the encoder emits at the given bit depth,
/// `2^(b-1) - 1`.  A normalized value of exactly -1 maps to `-peak`, not to
/// `-2^(b-1)`, so the emitted range is symmetric.
pub open spec fn peak(bit_depth: u16) -> int {
    if bit_depth == 16 {
        0x7fff
    } else if bit_depth == 24 {
        0x7fffff
    } else {
        0x7fffffff
    }
}

/// Bytes each encoded mono sample occupies.
pub open spec fn bytes_per_sample(bit_depth: u16) -> nat {
    if bit_depth == 16 {
        2
    } else if bit_depth == 24 {
        3
    } else {
        4
    }
}

/// Saturating clamp to the symmetric range of the bit depth; values are
/// never wrapped.
pub open spec fn clamped(v: int, bit_depth: u16) -> int {
    if v < -peak(bit_depth) {
        -peak(bit_depth)
    } else if v > peak(bit_depth) {
        peak(bit_depth)
    } else {
        v
    }
}

/// The 32-bit two's-complement image of a sample value.  The low
/// `bytes_per_sample` bytes of this image are what the encoder stores; for
/// 16 and 24 bits they coincide with the narrower two's-complement form
/// because the clamped value fits the narrower width.
pub open spec fn to_unsigned32(v: int) -> int
    recommends
        -0x8000_0000 <= v <= 0x7fff_ffff,
{
    if v < 0 {
        v + 0x1_0000_0000
    } else {
        v
    }
}

/// Little-endian byte image of one encoded sample value.
pub open spec fn sample_bytes(v: int, bit_depth: u16) -> Seq<u8>
    recommends
        -peak(bit_depth) <= v <= peak(bit_depth),
{
    let u = to_unsigned32(v);
    if bit_depth == 16 {
        seq![(u % 0x100) as u8, ((u / 0x100) % 0x100) as u8]
    } else if bit_depth == 24 {
        seq![(u % 0x100) as u8, ((u / 0x100) % 0x100) as u8, ((u / 0x10000) % 0x100) as u8]
    } else {
        seq![
            (u % 0x100) as u8,
            ((u / 0x100) % 0x100) as u8,
            ((u / 0x10000) % 0x100) as u8,
            ((u / 0x1000000) % 0x100) as u8,
        ]
    }
}

/// Byte image of a whole block: each sample clamped, then laid out
/// little-endian, in order.
pub open spec fn pcm_bytes(samples: Seq<i32>, bit_depth: u16) -> Seq<u8>
    decreases samples.len(),
{
    if samples.len() == 0 {
        Seq::empty()
    } else {
        pcm_bytes(samples.drop_last(), bit_depth) + sample_bytes(
            clamped(samples.last() as int, bit_depth),
            bit_depth,
        )
    }
}

pub proof fn lemma_pcm_bytes_len(samples: Seq<i32>, bit_depth: u16)
    ensures
        pcm_bytes(samples, bit_depth).len() == samples.len() * bytes_per_sample(bit_depth),
    decreases samples.len(),
{
    if samples.len() > 0 {
        lemma_pcm_bytes_len(samples.drop_last(), bit_depth);
        let n = samples.len() as int;
        let b = bytes_per_sample(bit_depth) as int;
        assert((n - 1) * b + b == n * b) by (nonlinear_arith);
    }
}

pub proof fn lemma_pcm_bytes_extend(samples: Seq<i32>, i: int, bit_depth: u16)
    requires
        0 <= i < samples.len(),
    ensures
        pcm_bytes(samples.take(i + 1), bit_depth) == pcm_bytes(samples.take(i), bit_depth)
            + sample_bytes(clamped(samples[i] as int, bit_depth), bit_depth),
{
    assert(samples.take(i + 1).drop_last() =~= samples.take(i));
    assert(samples.take(i + 1).last() == samples[i]);
}

/// One block after another, in order: the sample image of a multi-part
/// recipe rendered as a single file.
pub open spec fn concat_blocks_spec(blocks: Seq<Seq<i32>>) -> Seq<i32>
    decreases blocks.len(),
{
    if blocks.len() == 0 {
        Seq::empty()
    } else {
        concat_blocks_spec(blocks.drop_last()) + blocks.last()
    }
}

pub proof fn lemma_concat_blocks_extend(blocks: Seq<Seq<i32>>, i: int)
    requires
        0 <= i < blocks.len(),
    ensures
        concat_blocks_spec(blocks.take(i + 1)) == concat_blocks_spec(blocks.take(i)) + blocks[i],
{
    assert(blocks.take(i + 1).drop_last() =~= blocks.take(i));
    assert(blocks.take(i + 1).last() == blocks[i]);
}

/// Law: concatenating `k` blocks of one common length gives a block of
/// exactly `k` times that length — a multi-part file is as long as its
/// parts together, with no sample added or lost at the joins.
pub proof fn lemma_concat_blocks_uniform_len(blocks: Seq<Seq<i32>>, part_len: int)
    requires
        forall|i: int| 0 <= i < blocks.len() ==> #[trigger] blocks[i].len() == part_len,
    ensures
        concat_blocks_spec(blocks).len() == blocks.len() * part_len,
    decreases blocks.len(),
{
    if blocks.len() == 0 {
    } else {
        lemma_concat_blocks_uniform_len(blocks.drop_last(), part_len);
        let k = blocks.len() as int;
        assert((k - 1) * part_len + part_len == k * part_len) by (nonlinear_arith);
    }
}

/// Concatenate sample blocks in order into one block.
pub fn concat_blocks(blocks: &Vec<Vec<i32>>) -> (r: Vec<i32>)
    ensures
        r@ == concat_blocks_spec(blocks@.map_values(|b: Vec<i32>| b@)),
{
    let ghost views = blocks@.map_values(|b: Vec<i32>| b@);
    let mut out: Vec<i32> = Vec::new();
    let mut i: usize = 0;
    while i < blocks.len()
        invariant
            0 <= i <= blocks@.len(),
            views == blocks@.map_values(|b: Vec<i32>| b@),
            out@ == concat_blocks_spec(views.take(i as int)),
        decreases blocks@.len() - i,
    {
        out.extend_from_slice(blocks[i].as_slice());
        proof {
            lemma_concat_blocks_extend(views, i as int);
        }
        i = i + 1;
    }
    proof {
        assert(views.take(views.len() as int) =~= views);
    }
    out
}

/// Law: whatever value a generator hands over, the integer sample the
/// encoder emits lies in the symmetric range `[-(2^(b-1) - 1), 2^(b-1) - 1]`
/// of its bit depth — clamping saturates and never wraps.
pub proof fn lemma_encoded_sample_in_range(v: int, bit_depth: u16)
    ensures
        -peak(bit_depth) <= clamped(v, bit_depth) <= peak(bit_depth),
{
}

/// Saturating clamp of one sample; what remains is always representable at
/// the bit depth, so encoding can never wrap.
pub fn clamp_sample(v: i32, bit_depth: u16) -> (r: i32)
    requires
        bit_depth_allowed(bit_depth),
    ensures
        r == clamped(v as int, bit_depth),
        -peak(bit_depth) <= r <= peak(bit_depth),
{
    let hi: i32 = if bit_depth == 16 {
        0x7fff
    } else if bit_depth == 24 {
        0x7fffff
    } else {
        0x7fffffff
    };
    let lo: i32 = -hi;
    if v < lo {
        lo
    } else if v > hi {
        hi
    } else {
        v
    }
}

proof fn lemma_i32_as_u32(v: i32)
    ensures
        v >= 0 ==> v as u32 == v,
        v < 0 ==> v as u32 == v + 0x1_0000_0000,
{
    assert(v >= 0 ==> v as u32 == v) by (bit_vector);
    assert(v < 0 ==> v as u32 == v + 0x1_0000_0000) by (bit_vector);
}

/// Clamp one sample and append its little-endian byte image.
pub fn push_sample_bytes(out: &mut Vec<u8>, v: i32, bit_depth: u16)
    requires
        bit_depth_allowed(bit_depth),
    ensures
        final(out)@ == old(out)@ + sample_bytes(clamped(v as int, bit_depth), bit_depth),
{
    let c = clamp_sample(v, bit_depth);
    let u: u32 = #[verifier::truncate] (c as u32);
    proof {
        lemma_i32_as_u32(c);
        assert(u == to_unsigned32(c as int));
    }
    out.push((u % 0x100) as u8);
    out.push(((u / 0x100) % 0x100) as u8);
    if bit_depth == 24 || bit_depth == 32 {
        out.push(((u / 0x10000) % 0x100) as u8);
    }
    if bit_depth == 32 {
        out.push(((u / 0x1000000) % 0x100) as u8);
    }
    proof {
        assert(out@ =~= old(out)@ + sample_bytes(clamped(v as int, bit_depth), bit_depth));
    }
}

} // verus!
