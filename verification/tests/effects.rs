//! Bounds checking on the effect parameter structures.

use openal::effects::{
    ALEfxAutowahProperties, ALEfxBandpassFilterProperties, ALEfxChorusProperties,
    ALEfxChorusWaveform, ALEfxCompressorProperties, ALEfxDistortionProperties,
    ALEfxEAXReverbProperties, ALEfxEchoProperties, ALEfxEqualizerProperties,
    ALEfxFlangerProperties, ALEfxFrequencyShifterDirection, ALEfxFrequencyShifterProperties,
    ALEfxHighpassFilterProperties, ALEfxLowpassFilterProperties, ALEfxPan,
    ALEfxPitchShifterProperties, ALEfxReverbProperties, ALEfxRingModulatorProperties,
    ALEfxVocalMorpherPhoneme, ALEfxVocalMorpherProperties, ALEfxVocalMorpherWaveform,
    ALEffectType, ALFilterType,
};
use openal::error::ALError;

#[test]
fn defaults_are_all_valid() {
    assert!(ALEfxEAXReverbProperties::default().check().is_ok());
    assert!(ALEfxReverbProperties::default().check().is_ok());
    assert!(ALEfxChorusProperties::default().check().is_ok());
    assert!(ALEfxDistortionProperties::default().check().is_ok());
    assert!(ALEfxEchoProperties::default().check().is_ok());
    assert!(ALEfxFlangerProperties::default().check().is_ok());
    assert!(ALEfxFrequencyShifterProperties::default().check().is_ok());
    assert!(ALEfxVocalMorpherProperties::default().check().is_ok());
    assert!(ALEfxPitchShifterProperties::default().check().is_ok());
    assert!(ALEfxRingModulatorProperties::default().check().is_ok());
    assert!(ALEfxAutowahProperties::default().check().is_ok());
    assert!(ALEfxCompressorProperties::default().check().is_ok());
    assert!(ALEfxEqualizerProperties::default().check().is_ok());
    assert!(ALEfxLowpassFilterProperties::default().check().is_ok());
    assert!(ALEfxHighpassFilterProperties::default().check().is_ok());
    assert!(ALEfxBandpassFilterProperties::default().check().is_ok());
}

#[test]
fn documented_default_values() {
    let reverb = ALEfxReverbProperties::default();
    assert_eq!(reverb.density, 1_000_000);
    assert_eq!(reverb.gain, 320_000);
    assert_eq!(reverb.gainhf, 890_000);
    assert_eq!(reverb.decay_time, 1_490_000);
    assert_eq!(reverb.reflections_delay, 7_000);
    assert!(reverb.decayhf_limit);

    let chorus = ALEfxChorusProperties::default();
    assert_eq!(chorus.phase, 90);
    assert_eq!(chorus.rate, 1_100_000);
    assert_eq!(chorus.delay, 16_000);

    let eq = ALEfxEqualizerProperties::default();
    assert_eq!(eq.low_gain, 1_000_000);
    assert_eq!(eq.high_cutoff, 6_000_000_000);
}

#[test]
fn lowpass_bounds() {
    // new_checked accepts exactly what check accepts.
    assert!(ALEfxLowpassFilterProperties::new_checked(500_000, 0).is_ok());
    assert_eq!(
        ALEfxLowpassFilterProperties::new_checked(1_000_001, 0),
        Err(ALError::InvalidValue)
    );
    assert_eq!(
        ALEfxLowpassFilterProperties::new_checked(0, -1),
        Err(ALError::InvalidValue)
    );

    // The unchecked constructor takes anything; check finds it afterwards.
    let bad = ALEfxLowpassFilterProperties::new(-5, 0);
    assert_eq!(bad.check(), Err(ALError::InvalidValue));
}

#[test]
fn setters_enforce_bounds() {
    let mut lp = ALEfxLowpassFilterProperties::default();
    assert!(lp.gain(250_000).is_ok());
    assert_eq!(lp.gain, 250_000);
    // A rejected assignment leaves the old value in place.
    assert_eq!(lp.gain(2_000_000), Err(ALError::InvalidValue));
    assert_eq!(lp.gain, 250_000);
    assert!(lp.gainhf(0).is_ok());
    assert_eq!(lp.gainhf, 0);

    let mut chorus = ALEfxChorusProperties::default();
    assert!(chorus.phase(-180).is_ok());
    assert_eq!(chorus.phase(181), Err(ALError::InvalidValue));
    assert_eq!(chorus.phase, -180);
    assert!(chorus.waveform(ALEfxChorusWaveform::Sinusoid).is_ok());

    let mut wah = ALEfxAutowahProperties::default();
    // The lower bounds are above zero.
    assert_eq!(wah.attack_time(0), Err(ALError::InvalidValue));
    assert!(wah.attack_time(100).is_ok());
    assert_eq!(wah.peak_gain(29), Err(ALError::InvalidValue));
    assert!(wah.peak_gain(31_621_000_000).is_ok());
}

#[test]
fn eax_reverb_pan_bounds() {
    let mut eax = ALEfxEAXReverbProperties::default();
    assert!(eax.reflections_pan(ALEfxPan::new(1_000_000, -1_000_000, 0)).is_ok());
    assert_eq!(
        eax.reflections_pan(ALEfxPan::new(1_000_001, 0, 0)),
        Err(ALError::InvalidValue)
    );
    assert_eq!(eax.reflections_pan, ALEfxPan::new(1_000_000, -1_000_000, 0));

    // check catches a pan smuggled in through direct construction.
    eax.late_reverb_pan = ALEfxPan { x: 0, y: 2_000_000, z: 0 };
    assert_eq!(eax.check(), Err(ALError::InvalidValue));
}

#[test]
fn vocal_morpher_and_pitch_shifter_bounds() {
    let vm = ALEfxVocalMorpherProperties::new_checked(
        ALEfxVocalMorpherPhoneme::AA,
        ALEfxVocalMorpherPhoneme::UW,
        24,
        -24,
        ALEfxVocalMorpherWaveform::Saw,
        10_000_000,
    );
    assert!(vm.is_ok());
    assert_eq!(
        ALEfxVocalMorpherProperties::new_checked(
            ALEfxVocalMorpherPhoneme::A,
            ALEfxVocalMorpherPhoneme::A,
            25,
            0,
            ALEfxVocalMorpherWaveform::Sinusoid,
            0,
        ),
        Err(ALError::InvalidValue)
    );

    let mut ps = ALEfxPitchShifterProperties::default();
    assert!(ps.coarse_tune(-12).is_ok());
    assert_eq!(ps.coarse_tune(13), Err(ALError::InvalidValue));
    assert!(ps.fine_tune(50).is_ok());
    assert_eq!(ps.fine_tune(-51), Err(ALError::InvalidValue));
}

#[test]
fn frequency_shifter_directions() {
    let mut fs = ALEfxFrequencyShifterProperties::default();
    assert_eq!(fs.left_direction, ALEfxFrequencyShifterDirection::Down);
    assert!(fs.right_direction(ALEfxFrequencyShifterDirection::Off).is_ok());
    assert!(fs.frequency(24_000_000_000).is_ok());
    assert_eq!(fs.frequency(24_000_000_001), Err(ALError::InvalidValue));
}

#[test]
fn reverb_to_eax_and_back() {
    let mut reverb = ALEfxReverbProperties::default();
    reverb.gain(10_000).unwrap();
    reverb.decay_time(20_000_000).unwrap();
    reverb.decayhf_limit(false).unwrap();

    let eax: ALEfxEAXReverbProperties = reverb.into();
    // Shared parameters carry over, EAX-only ones keep their defaults.
    assert_eq!(eax.gain, 10_000);
    assert_eq!(eax.decay_time, 20_000_000);
    assert!(!eax.decayhf_limit);
    assert_eq!(eax.gainlf, 0);
    assert_eq!(eax.hfreference, 5_000_000_000);
    assert!(eax.check().is_ok());

    let back: ALEfxReverbProperties = eax.into();
    assert_eq!(back, reverb);
}

#[test]
fn effect_and_filter_types_carry_properties() {
    let effect = ALEffectType::Echo(ALEfxEchoProperties::default());
    match effect {
        ALEffectType::Echo(echo) => assert_eq!(echo.spread, -1_000_000),
        _ => panic!("wrong variant"),
    }
    let filter = ALFilterType::Bandpass(ALEfxBandpassFilterProperties::default());
    match filter {
        ALFilterType::Bandpass(bp) => assert_eq!(bp.gainlf, 1_000_000),
        _ => panic!("wrong variant"),
    }
    assert!(!matches!(effect, ALEffectType::Null));
    assert!(!matches!(filter, ALFilterType::Null));

    let null = ALEffectType::Null;
    assert!(matches!(null, ALEffectType::Null));

    let _ = ALEffectType::Compressor(ALEfxCompressorProperties::default());
    let _ = ALEffectType::Distortion(ALEfxDistortionProperties::default());
    let _ = ALEffectType::Flanger(ALEfxFlangerProperties::default());
    let _ = ALEffectType::RingModulator(ALEfxRingModulatorProperties::default());
    let _ = ALFilterType::Highpass(ALEfxHighpassFilterProperties::default());
}
