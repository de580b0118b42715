//! Dispatch and configuration checks: generator choice per frequency,
//! custom modes, preset arithmetic, file names, block lengths, and the
//! argument validators.

use spirit::config::{
    validate_duration_ms, validate_frequencies, validate_sweep, AudioConfig, InvalidArg,
};
use spirit::recipe::{
    brainwave_beat_centi, capped_duration_ms, catalog_filename, custom_filename, custom_waveform,
    hz_label, select_tone, tuning_pair_count, GenerationMode, Waveform,
};

#[test]
fn zero_frequency_entries_are_skipped() {
    assert_eq!(select_tone(0), None);
}

#[test]
fn sub_audible_frequencies_become_isochronic() {
    // 7.83 Hz rides the 200 Hz carrier as an isochronic pulse.
    assert_eq!(
        select_tone(783),
        Some(Waveform::Isochronic {
            carrier_centi: 20000,
            pulse_centi: 783
        })
    );
    assert_eq!(
        select_tone(1999),
        Some(Waveform::Isochronic {
            carrier_centi: 20000,
            pulse_centi: 1999
        })
    );
}

#[test]
fn audible_frequencies_become_sines() {
    assert_eq!(select_tone(2000), Some(Waveform::Sine { hz_centi: 2000 }));
    assert_eq!(select_tone(44000), Some(Waveform::Sine { hz_centi: 44000 }));
}

#[test]
fn custom_modes_choose_their_family() {
    assert_eq!(
        custom_waveform(44000, GenerationMode::Sine),
        Waveform::Sine { hz_centi: 44000 }
    );
    assert_eq!(
        custom_waveform(1000, GenerationMode::Binaural),
        Waveform::Binaural {
            base_centi: 20000,
            beat_centi: 1000
        }
    );
    assert_eq!(
        custom_waveform(783, GenerationMode::Isochronic),
        Waveform::Isochronic {
            carrier_centi: 20000,
            pulse_centi: 783
        }
    );
}

#[test]
fn brainwave_beat_is_the_band_midpoint() {
    // Delta band 0.5 - 4 Hz: beat 2.25 Hz.
    assert_eq!(brainwave_beat_centi(50, 400), 225);
    // Alpha band 8 - 13 Hz: beat 10.5 Hz.
    assert_eq!(brainwave_beat_centi(800, 1300), 1050);
}

#[test]
fn tuning_pairs_one_per_ten_seconds_at_least_one() {
    assert_eq!(tuning_pair_count(60_000), 6);
    assert_eq!(tuning_pair_count(5_000), 1);
    assert_eq!(tuning_pair_count(0), 1);
    assert_eq!(tuning_pair_count(600_000), 60);
    assert_eq!(tuning_pair_count(19_999), 1);
}

#[test]
fn run_everything_caps_long_presets() {
    assert_eq!(capped_duration_ms(60_000), 60_000);
    assert_eq!(capped_duration_ms(300_000), 300_000);
    assert_eq!(capped_duration_ms(600_000), 300_000);
}

#[test]
fn file_names_carry_two_decimals() {
    assert_eq!(hz_label(39600), b"396.00".to_vec());
    assert_eq!(hz_label(783), b"7.83".to_vec());
    assert_eq!(hz_label(5), b"0.05".to_vec());
    assert_eq!(hz_label(13610), b"136.10".to_vec());
    assert_eq!(
        catalog_filename(b"chakra", b"root", 39600),
        b"chakra_root_396.00hz.wav".to_vec()
    );
    assert_eq!(
        custom_filename(1000, GenerationMode::Binaural),
        b"custom_10.00hz_binaural.wav".to_vec()
    );
    assert_eq!(
        custom_filename(44000, GenerationMode::Sine),
        b"custom_440.00hz_sine.wav".to_vec()
    );
    assert_eq!(
        custom_filename(783, GenerationMode::Isochronic),
        b"custom_7.83hz_isochronic.wav".to_vec()
    );
}

#[test]
fn block_length_rounds_to_nearest_sample() {
    let cfg = AudioConfig {
        sample_rate: 44100,
        bit_depth: 16,
    };
    assert_eq!(cfg.num_samples(1000), Some(44100));
    assert_eq!(cfg.num_samples(500), Some(22050));
    // 44100 * 0.999 = 44055.9 rounds up.
    assert_eq!(cfg.num_samples(999), Some(44056));
    assert_eq!(cfg.num_samples(0), Some(0));
    let cfg48 = AudioConfig {
        sample_rate: 48000,
        bit_depth: 24,
    };
    assert_eq!(cfg48.num_samples(10_000), Some(480_000));
}

#[test]
fn configuration_is_validated_before_any_file_is_opened() {
    assert!(AudioConfig::checked_new(44100, 16).is_ok());
    assert!(AudioConfig::checked_new(48000, 24).is_ok());
    assert!(AudioConfig::checked_new(96000, 32).is_ok());
    assert!(AudioConfig::checked_new(192000, 16).is_ok());
    assert_eq!(
        AudioConfig::checked_new(22050, 16),
        Err(InvalidArg::SampleRate)
    );
    assert_eq!(
        AudioConfig::checked_new(44100, 8),
        Err(InvalidArg::BitDepth)
    );
    assert_eq!(
        AudioConfig::checked_new(0, 8),
        Err(InvalidArg::SampleRate)
    );
}

#[test]
fn default_configuration_is_cd_quality() {
    let cfg = AudioConfig::default();
    assert_eq!(cfg.sample_rate, 44100);
    assert_eq!(cfg.bit_depth, 16);
}

#[test]
fn argument_validators_reject_each_bad_input() {
    assert_eq!(validate_duration_ms(60_000), Ok(60_000));
    assert_eq!(validate_duration_ms(0), Err(InvalidArg::Duration));

    assert_eq!(validate_frequencies(&vec![39600]), Ok(()));
    assert_eq!(
        validate_frequencies(&Vec::new()),
        Err(InvalidArg::EmptyFrequencies)
    );

    assert_eq!(validate_sweep(2000, 2_000_000), Ok(()));
    assert_eq!(validate_sweep(2000, 2000), Err(InvalidArg::SweepRange));
    assert_eq!(validate_sweep(0, 2000), Err(InvalidArg::SweepRange));
    assert_eq!(validate_sweep(2000, 0), Err(InvalidArg::SweepRange));
}
