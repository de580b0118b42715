//! Recipe dispatch: which waveform a catalog entry or a custom request
//! maps to, the preset arithmetic, and the file names the recipes emit.
//!
//! Frequencies are carried in centihertz (hundredths of a hertz), the
//! resolution file names are written with, so every decision here is exact
//! integer arithmetic.

use vstd::prelude::*;

verus! {

/// Generation mode for custom frequencies.
#[derive(Clone, Copy, Debug, PartialEq, Eq, Structural)]
pub enum GenerationMode {
    Sine,
    Binaural,
    Isochronic,
}

/// A fully determined waveform request, ready for a generator.
#[derive(Clone, Copy, Debug, PartialEq, Eq, Structural)]
pub enum Waveform {
    /// A pure sine at the given frequency.
    Sine { hz_centi: u64 },
    /// A carrier amplitude-modulated at the pulse rate.
    Isochronic { carrier_centi: u64, pulse_centi: u64 },
    /// Two sines, one per ear, `beat` apart.
    Binaural { base_centi: u64, beat_centi: u64 },
}

/// Carrier used whenever a recipe needs one: 200 Hz.
pub const CARRIER_CENTI: u64 = 20000;

/// Threshold below which a frequency is rendered as an isochronic pulse
/// rather than a tone: 20 Hz, the lower edge of hearing.
pub const AUDIBLE_CENTI: u64 = 2000;

/// Choose the generator for one catalog entry: zero-frequency rows are
/// sentinels and are skipped; sub-audible frequencies become the pulse of
/// an isochronic tone on the 200 Hz carrier; everything else is a sine.
pub fn select_tone(hz_centi: u64) -> (t: Option<Waveform>)
    ensures
        t is None <==> hz_centi == 0,
        0 < hz_centi < AUDIBLE_CENTI ==> t == Some(
            (Waveform::Isochronic { carrier_centi: CARRIER_CENTI, pulse_centi: hz_centi }),
        ),
        hz_centi >= AUDIBLE_CENTI ==> t == Some((Waveform::Sine { hz_centi })),
{
    if hz_centi == 0 {
        None
    } else if hz_centi < AUDIBLE_CENTI {
        Some(Waveform::Isochronic { carrier_centi: CARRIER_CENTI, pulse_centi: hz_centi })
    } else {
        Some(Waveform::Sine { hz_centi })
    }
}

/// Waveform for a custom request: the mode names the family and the
/// binaural and isochronic families put the frequency on the 200 Hz
/// carrier.
pub fn custom_waveform(hz_centi: u64, mode: GenerationMode) -> (w: Waveform)
    ensures
        mode == GenerationMode::Sine ==> w == (Waveform::Sine { hz_centi }),
        mode == GenerationMode::Binaural ==> w == (Waveform::Binaural {
            base_centi: CARRIER_CENTI,
            beat_centi: hz_centi,
        }),
        mode == GenerationMode::Isochronic ==> w == (Waveform::Isochronic {
            carrier_centi: CARRIER_CENTI,
            pulse_centi: hz_centi,
        }),
{
    match mode {
        GenerationMode::Sine => Waveform::Sine { hz_centi },
        GenerationMode::Binaural => Waveform::Binaural {
            base_centi: CARRIER_CENTI,
            beat_centi: hz_centi,
        },
        GenerationMode::Isochronic => Waveform::Isochronic {
            carrier_centi: CARRIER_CENTI,
            pulse_centi: hz_centi,
        },
    }
}

/// Beat frequency of a brainwave state: the midpoint of its band.
pub fn brainwave_beat_centi(low_centi: u64, high_centi: u64) -> (r: u64)
    requires
        low_centi + high_centi <= u64::MAX,
    ensures
        r == (low_centi + high_centi) / 2,
{
    (low_centi + high_centi) / 2
}

/// Number of 432/440 A-B pairs in the tuning comparison: one pair per ten
/// seconds of requested duration, and at least one.
pub fn tuning_pair_count(duration_ms: u64) -> (r: u64)
    ensures
        r == if duration_ms / 10000 == 0 {
            1int
        } else {
            duration_ms as int / 10000
        },
        r >= 1,
{
    let pairs = duration_ms / 10000;
    if pairs == 0 {
        1
    } else {
        pairs
    }
}

/// Duration cap applied to the binaural and Schumann presets when every
/// recipe is rendered in one run: 300 seconds.
pub fn capped_duration_ms(duration_ms: u64) -> (r: u64)
    ensures
        r == if duration_ms <= 300000 {
            duration_ms as int
        } else {
            300000int
        },
{
    if duration_ms <= 300000 {
        duration_ms
    } else {
        300000
    }
}

/// Decimal digits of `v`, most significant first.
pub open spec fn dec_digits(v: nat) -> Seq<u8>
    decreases v,
{
    if v < 10 {
        seq![(48 + v) as u8]
    } else {
        dec_digits(v / 10) + seq![(48 + v % 10) as u8]
    }
}

/// The label file names carry for a frequency in centihertz: the whole
/// hertz, a dot, and exactly two decimals.
pub open spec fn hz_centi_label(hz: nat) -> Seq<u8> {
    dec_digits(hz / 100) + seq![46u8, (48 + (hz % 100) / 10) as u8, (48 + hz % 10) as u8]
}

/// File name of one catalog entry: `{prefix}_{name}_{label}hz.wav`.
pub open spec fn spec_catalog_filename(prefix: Seq<u8>, name: Seq<u8>, hz: nat) -> Seq<u8> {
    prefix + seq![95u8] + name + seq![95u8] + hz_centi_label(hz) + seq![
        104u8,
        122u8,
        46u8,
        119u8,
        97u8,
        118u8,
    ]
}

/// Tag a custom file name carries for its mode.
pub open spec fn mode_tag(mode: GenerationMode) -> Seq<u8> {
    match mode {
        GenerationMode::Sine => seq![115u8, 105u8, 110u8, 101u8],
        GenerationMode::Binaural => seq![98u8, 105u8, 110u8, 97u8, 117u8, 114u8, 97u8, 108u8],
        GenerationMode::Isochronic => seq![
            105u8,
            115u8,
            111u8,
            99u8,
            104u8,
            114u8,
            111u8,
            110u8,
            105u8,
            99u8,
        ],
    }
}

/// File name of a custom request: `custom_{label}hz_{mode}.wav`.
pub open spec fn spec_custom_filename(hz: nat, mode: GenerationMode) -> Seq<u8> {
    seq![99u8, 117u8, 115u8, 116u8, 111u8, 109u8, 95u8] + hz_centi_label(hz) + seq![104u8, 122u8, 95u8]
        + mode_tag(mode) + seq![46u8, 119u8, 97u8, 118u8]
}

/// Append the decimal digits of `v`.
pub fn push_decimal(out: &mut Vec<u8>, v: u64)
    ensures
        final(out)@ == old(out)@ + dec_digits(v as nat),
    decreases v,
{
    if v < 10 {
        out.push(48 + v as u8);
        proof {
            assert(out@ =~= old(out)@ + dec_digits(v as nat));
        }
    } else {
        push_decimal(out, v / 10);
        out.push(48 + (v % 10) as u8);
        proof {
            assert(out@ =~= old(out)@ + dec_digits(v as nat));
        }
    }
}

/// Append the two-decimal frequency label for `hz_centi`.
pub fn push_hz_label(out: &mut Vec<u8>, hz_centi: u64)
    ensures
        final(out)@ == old(out)@ + hz_centi_label(hz_centi as nat),
{
    push_decimal(out, hz_centi / 100);
    out.push(46u8);
    out.push(48 + ((hz_centi % 100) / 10) as u8);
    out.push(48 + (hz_centi % 10) as u8);
    proof {
        assert(out@ =~= old(out)@ + hz_centi_label(hz_centi as nat));
    }
}

/// The two-decimal frequency label on its own, as file names embed it.
pub fn hz_label(hz_centi: u64) -> (r: Vec<u8>)
    ensures
        r@ == hz_centi_label(hz_centi as nat),
{
    let mut out: Vec<u8> = Vec::new();
    push_hz_label(&mut out, hz_centi);
    proof {
        assert(out@ =~= hz_centi_label(hz_centi as nat));
    }
    out
}

/// File name of one catalog entry.
pub fn catalog_filename(prefix: &[u8], name: &[u8], hz_centi: u64) -> (r: Vec<u8>)
    ensures
        r@ == spec_catalog_filename(prefix@, name@, hz_centi as nat),
{
    let mut out: Vec<u8> = Vec::new();
    out.extend_from_slice(prefix);
    out.push(95u8);
    out.extend_from_slice(name);
    out.push(95u8);
    push_hz_label(&mut out, hz_centi);
    out.push(104u8);
    out.push(122u8);
    out.push(46u8);
    out.push(119u8);
    out.push(97u8);
    out.push(118u8);
    proof {
        assert(out@ =~= spec_catalog_filename(prefix@, name@, hz_centi as nat));
    }
    out
}

/// Append the tag of a generation mode.
fn push_mode_tag(out: &mut Vec<u8>, mode: GenerationMode)
    ensures
        final(out)@ == old(out)@ + mode_tag(mode),
{
    match mode {
        GenerationMode::Sine => {
            out.push(115u8);
            out.push(105u8);
            out.push(110u8);
            out.push(101u8);
        },
        GenerationMode::Binaural => {
            out.push(98u8);
            out.push(105u8);
            out.push(110u8);
            out.push(97u8);
            out.push(117u8);
            out.push(114u8);
            out.push(97u8);
            out.push(108u8);
        },
        GenerationMode::Isochronic => {
            out.push(105u8);
            out.push(115u8);
            out.push(111u8);
            out.push(99u8);
            out.push(104u8);
            out.push(114u8);
            out.push(111u8);
            out.push(110u8);
            out.push(105u8);
            out.push(99u8);
        },
    }
    proof {
        assert(out@ =~= old(out)@ + mode_tag(mode));
    }
}

/// File name of a custom request.
pub fn custom_filename(hz_centi: u64, mode: GenerationMode) -> (r: Vec<u8>)
    ensures
        r@ == spec_custom_filename(hz_centi as nat, mode),
{
    let mut out: Vec<u8> = Vec::new();
    out.push(99u8);
    out.push(117u8);
    out.push(115u8);
    out.push(116u8);
    out.push(111u8);
    out.push(109u8);
    out.push(95u8);
    proof {
        assert(out@ =~= seq![99u8, 117u8, 115u8, 116u8, 111u8, 109u8, 95u8]);
    }
    push_hz_label(&mut out, hz_centi);
    out.push(104u8);
    out.push(122u8);
    out.push(95u8);
    let ghost head = seq![99u8, 117u8, 115u8, 116u8, 111u8, 109u8, 95u8] + hz_centi_label(
        hz_centi as nat,
    ) + seq![104u8, 122u8, 95u8];
    proof {
        assert(out@ =~= head);
    }
    push_mode_tag(&mut out, mode);
    out.push(46u8);
    out.push(119u8);
    out.push(97u8);
    out.push(118u8);
    proof {
        assert(out@ =~= spec_custom_filename(hz_centi as nat, mode));
    }
    out
}

} // verus!
