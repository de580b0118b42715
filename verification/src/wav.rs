//! Canonical RIFF/WAVE encoding: a single PCM `fmt ` chunk (format code 1)
//! followed by a single `data` chunk, all little-endian.
//!
//! The encoder builds the complete file image in memory, so the declared
//! sizes are computed from the sample count up front and the emitted file
//! can never declare a `data` size different from the bytes it holds.

use vstd::prelude::*;

use crate::config::bit_depth_allowed;
use crate::pcm::bytes_per_sample;
use crate::pcm::lemma_pcm_bytes_extend;
use crate::pcm::lemma_pcm_bytes_len;
use crate::pcm::pcm_bytes;
use crate::pcm::push_sample_bytes;

verus! {

/// Encoding failures.
#[derive(Clone, Copy, Debug, PartialEq, Eq, Structural)]
pub enum WavError {
    /// A stereo block whose channels differ in length.
    ChannelMismatch,
    /// More sample data than a RIFF chunk size field can declare.
    DataTooLarge,
}

/// Little-endian image of a 16-bit header field.
pub open spec fn le16(v: int) -> Seq<u8>
    recommends
        0 <= v < 0x10000,
{
    seq![(v % 0x100) as u8, ((v / 0x100) % 0x100) as u8]
}

/// Little-endian image of a 32-bit header field.
pub open spec fn le32(v: int) -> Seq<u8>
    recommends
        0 <= v < 0x1_0000_0000,
{
    seq![
        (v % 0x100) as u8,
        ((v / 0x100) % 0x100) as u8,
        ((v / 0x10000) % 0x100) as u8,
        ((v / 0x1000000) % 0x100) as u8,
    ]
}

/// Parameters the writer accepts: mono or stereo, a positive sample rate, a
/// supported bit depth, and a byte rate that fits its 32-bit header field.
pub open spec fn wav_params_ok(channels: u16, sample_rate: u32, bit_depth: u16) -> bool {
    &&& channels == 1 || channels == 2
    &&& sample_rate > 0
    &&& bit_depth_allowed(bit_depth)
    &&& sample_rate * channels * bytes_per_sample(bit_depth) <= u32::MAX
}

/// The 44-byte canonical header: "RIFF", riff size, "WAVE", "fmt ", chunk
/// size 16, format code 1, channel count, sample rate, byte rate, block
/// align, bit depth, "data", data size.
pub open spec fn wav_header(channels: u16, sample_rate: u32, bit_depth: u16, data_len: int) -> Seq<
    u8,
>
    recommends
        wav_params_ok(channels, sample_rate, bit_depth),
        0 <= data_len <= u32::MAX - 36,
{
    seq![0x52u8, 0x49u8, 0x46u8, 0x46u8] + le32(36 + data_len) + seq![
        0x57u8,
        0x41u8,
        0x56u8,
        0x45u8,
    ] + seq![0x66u8, 0x6du8, 0x74u8, 0x20u8] + le32(16) + le16(1) + le16(channels as int) + le32(
        sample_rate as int,
    ) + le32(sample_rate * channels * bytes_per_sample(bit_depth)) + le16(
        channels * bytes_per_sample(bit_depth),
    ) + le16(bit_depth as int) + seq![0x64u8, 0x61u8, 0x74u8, 0x61u8] + le32(data_len)
}

/// The complete file image for a block of already-converted integer
/// samples (interleaved when stereo).
pub open spec fn wav_file(
    channels: u16,
    sample_rate: u32,
    bit_depth: u16,
    samples: Seq<i32>,
) -> Seq<u8> {
    wav_header(
        channels,
        sample_rate,
        bit_depth,
        (samples.len() * bytes_per_sample(bit_depth)) as int,
    ) + pcm_bytes(samples, bit_depth)
}

/// Frame-interleaved view of a stereo block: left sample, then right
/// sample, for each frame in order.
pub open spec fn interleave(left: Seq<i32>, right: Seq<i32>) -> Seq<i32>
    recommends
        left.len() == right.len(),
{
    Seq::new(left.len() * 2, |k: int| if k % 2 == 0 { left[k / 2] } else { right[k / 2] })
}

fn push_le16(out: &mut Vec<u8>, v: u16)
    ensures
        final(out)@ == old(out)@ + le16(v as int),
{
    out.push((v % 0x100) as u8);
    out.push(((v / 0x100) % 0x100) as u8);
    proof {
        assert(out@ =~= old(out)@ + le16(v as int));
    }
}

fn push_le32(out: &mut Vec<u8>, v: u32)
    ensures
        final(out)@ == old(out)@ + le32(v as int),
{
    out.push((v % 0x100) as u8);
    out.push(((v / 0x100) % 0x100) as u8);
    out.push(((v / 0x10000) % 0x100) as u8);
    out.push(((v / 0x1000000) % 0x100) as u8);
    proof {
        assert(out@ =~= old(out)@ + le32(v as int));
    }
}

/// Exact number of bytes of one encoded mono sample.
pub fn sample_width(bit_depth: u16) -> (b: u16)
    requires
        bit_depth_allowed(bit_depth),
    ensures
        b == bytes_per_sample(bit_depth),
{
    if bit_depth == 16 {
        2
    } else if bit_depth == 24 {
        3
    } else {
        4
    }
}

/// Append the 44-byte canonical header for `data_len` bytes of sample data.
fn push_wav_header(out: &mut Vec<u8>, channels: u16, sample_rate: u32, bit_depth: u16, data_len: u32)
    requires
        wav_params_ok(channels, sample_rate, bit_depth),
        data_len <= u32::MAX - 36,
    ensures
        final(out)@ == old(out)@ + wav_header(channels, sample_rate, bit_depth, data_len as int),
{
    let width = sample_width(bit_depth);
    proof {
        let sr = sample_rate as int;
        let ch = channels as int;
        let b = width as int;
        assert(sr * (ch * b) == sr * ch * b) by (nonlinear_arith);
    }
    let block_align: u16 = channels * width;
    let byte_rate: u32 = sample_rate * block_align as u32;
    out.push(0x52);
    out.push(0x49);
    out.push(0x46);
    out.push(0x46);
    push_le32(out, 36 + data_len);
    out.push(0x57);
    out.push(0x41);
    out.push(0x56);
    out.push(0x45);
    out.push(0x66);
    out.push(0x6d);
    out.push(0x74);
    out.push(0x20);
    push_le32(out, 16);
    push_le16(out, 1);
    push_le16(out, channels);
    push_le32(out, sample_rate);
    push_le32(out, byte_rate);
    push_le16(out, block_align);
    push_le16(out, bit_depth);
    out.push(0x64);
    out.push(0x61);
    out.push(0x74);
    out.push(0x61);
    push_le32(out, data_len);
    proof {
        assert(out@ =~= old(out)@ + wav_header(
            channels,
            sample_rate,
            bit_depth,
            data_len as int,
        ));
    }
}

/// Encode a mono block as a complete WAV file image.
///
/// Succeeds exactly when the sample data fits the 32-bit RIFF size field;
/// on success the result is byte-for-byte the canonical file, whose
/// declared `data` size equals `bytes_per_sample(bit_depth) * N` — exactly
/// the sample bytes it carries.
pub fn encode_wav_mono(samples: &Vec<i32>, sample_rate: u32, bit_depth: u16) -> (r: Result<
    Vec<u8>,
    WavError,
>)
    requires
        wav_params_ok(1, sample_rate, bit_depth),
    ensures
        r is Ok <==> samples@.len() * bytes_per_sample(bit_depth) + 36 <= u32::MAX,
        r is Err ==> r == Err::<Vec<u8>, WavError>(WavError::DataTooLarge),
        r matches Ok(b) ==> b@ == wav_file(1, sample_rate, bit_depth, samples@),
        r matches Ok(b) ==> b@.len() == 44 + samples@.len() * bytes_per_sample(bit_depth),
        r matches Ok(b) ==> b@.subrange(40, 44) == le32(
            (samples@.len() * bytes_per_sample(bit_depth)) as int,
        ),
{
    let width = sample_width(bit_depth);
    let count: usize = samples.len();
    proof {
        let n = count as int;
        let w = width as int;
        assert(n * w <= u64::MAX * 4) by (nonlinear_arith)
            requires
                0 <= n <= u64::MAX,
                0 <= w <= 4,
        ;
    }
    let data_len128: u128 = count as u128 * width as u128;
    if data_len128 > (u32::MAX - 36) as u128 {
        return Err(WavError::DataTooLarge);
    }
    let data_len: u32 = data_len128 as u32;
    let mut out: Vec<u8> = Vec::new();
    push_wav_header(&mut out, 1, sample_rate, bit_depth, data_len);
    let ghost header = wav_header(1, sample_rate, bit_depth, data_len as int);
    let mut i: usize = 0;
    while i < samples.len()
        invariant
            bit_depth_allowed(bit_depth),
            0 <= i <= samples@.len(),
            out@ == header + pcm_bytes(samples@.take(i as int), bit_depth),
        decreases samples@.len() - i,
    {
        push_sample_bytes(&mut out, samples[i], bit_depth);
        proof {
            lemma_pcm_bytes_extend(samples@, i as int, bit_depth);
        }
        i = i + 1;
    }
    proof {
        assert(samples@.take(samples@.len() as int) =~= samples@);
        lemma_pcm_bytes_len(samples@, bit_depth);
        assert(out@.subrange(40, 44) =~= le32(
            (samples@.len() * bytes_per_sample(bit_depth)) as int,
        ));
    }
    Ok(out)
}

/// Encode a stereo block as a complete WAV file image, interleaving each
/// frame left-then-right.
///
/// Fails with `ChannelMismatch` exactly when the channels differ in
/// length; otherwise succeeds exactly when the sample data fits the 32-bit
/// RIFF size field.  On success the declared `data` size equals
/// `2 * bytes_per_sample(bit_depth) * N` — exactly the sample bytes the
/// file carries.
pub fn encode_wav_stereo(left: &Vec<i32>, right: &Vec<i32>, sample_rate: u32, bit_depth: u16) -> (r:
    Result<Vec<u8>, WavError>)
    requires
        wav_params_ok(2, sample_rate, bit_depth),
    ensures
        left@.len() != right@.len() ==> r == Err::<Vec<u8>, WavError>(WavError::ChannelMismatch),
        left@.len() == right@.len() ==> (r is Ok <==> left@.len() * 2 * bytes_per_sample(bit_depth)
            + 36 <= u32::MAX),
        left@.len() == right@.len() && r is Err ==> r == Err::<Vec<u8>, WavError>(
            WavError::DataTooLarge,
        ),
        r matches Ok(b) ==> b@ == wav_file(2, sample_rate, bit_depth, interleave(left@, right@)),
        r matches Ok(b) ==> b@.len() == 44 + left@.len() * 2 * bytes_per_sample(bit_depth),
        r matches Ok(b) ==> b@.subrange(40, 44) == le32(
            (left@.len() * 2 * bytes_per_sample(bit_depth)) as int,
        ),
{
    if left.len() != right.len() {
        return Err(WavError::ChannelMismatch);
    }
    let width = sample_width(bit_depth);
    let count: usize = left.len();
    proof {
        let n = count as int;
        let w = width as int;
        assert(n * 2 * w <= u64::MAX * 2 * 4) by (nonlinear_arith)
            requires
                0 <= n <= u64::MAX,
                0 <= w <= 4,
        ;
    }
    let data_len128: u128 = count as u128 * 2 * width as u128;
    if data_len128 > (u32::MAX - 36) as u128 {
        proof {
            let b = bytes_per_sample(bit_depth) as int;
            let n = left@.len() as int;
            assert(n * 2 * b == (n * 2) * b) by (nonlinear_arith);
        }
        return Err(WavError::DataTooLarge);
    }
    let data_len: u32 = data_len128 as u32;
    let ghost inter = interleave(left@, right@);
    proof {
        let b = bytes_per_sample(bit_depth) as int;
        let n = left@.len() as int;
        assert(n * 2 * b == (n * 2) * b) by (nonlinear_arith);
        assert(inter.len() == n * 2);
    }
    let mut out: Vec<u8> = Vec::new();
    push_wav_header(&mut out, 2, sample_rate, bit_depth, data_len);
    let ghost header = wav_header(2, sample_rate, bit_depth, data_len as int);
    let mut i: usize = 0;
    while i < left.len()
        invariant
            bit_depth_allowed(bit_depth),
            left@.len() == right@.len(),
            inter == interleave(left@, right@),
            inter.len() == left@.len() * 2,
            0 <= i <= left@.len(),
            out@ == header + pcm_bytes(inter.take(2 * i as int), bit_depth),
        decreases left@.len() - i,
    {
        proof {
            assert(inter[2 * i as int] == left@[i as int]);
            assert(inter[2 * i as int + 1] == right@[i as int]);
        }
        push_sample_bytes(&mut out, left[i], bit_depth);
        proof {
            lemma_pcm_bytes_extend(inter, 2 * i as int, bit_depth);
        }
        push_sample_bytes(&mut out, right[i], bit_depth);
        proof {
            lemma_pcm_bytes_extend(inter, 2 * i as int + 1, bit_depth);
        }
        i = i + 1;
    }
    proof {
        assert(inter.take(inter.len() as int) =~= inter);
        lemma_pcm_bytes_len(inter, bit_depth);
        let b = bytes_per_sample(bit_depth) as int;
        let n = left@.len() as int;
        assert((n * 2) * b == n * 2 * b) by (nonlinear_arith);
        assert(out@.subrange(40, 44) =~= le32((n * 2 * b) as int));
    }
    Ok(out)
}

} // verus!
