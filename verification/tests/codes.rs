//! Error-code, format and distance-model translation.

use openal::distance_model::{ALDistanceModel, AL_EXPONENT_DISTANCE, AL_INVERSE_DISTANCE, AL_NONE};
use openal::error::{checked_enum_value, ALError, AL_INVALID_NAME, AL_NO_ERROR, AL_OUT_OF_MEMORY};
use openal::format::{
    ALBitDepth, ALChannels, ALFormat, ALSampleType, AL_5POINT1_16_SOFT, AL_FORMAT_MONO16,
    AL_FORMAT_STEREO_FLOAT32, AL_MONO_SOFT, AL_QUAD32F_SOFT, AL_SHORT_SOFT, AL_STEREO8_SOFT,
};
use openal::source::{ALSourceKind, ALSourceState, AL_PAUSED, AL_PLAYING, AL_STATIC};

#[test]
fn al_error_codes_translate() {
    assert_eq!(ALError::from_al_code(AL_NO_ERROR), Ok(()));
    assert_eq!(ALError::from_al_code(AL_INVALID_NAME), Err(ALError::InvalidName));
    assert_eq!(ALError::from_al_code(0xA002), Err(ALError::InvalidEnum));
    assert_eq!(ALError::from_al_code(0xA003), Err(ALError::InvalidValue));
    assert_eq!(ALError::from_al_code(0xA004), Err(ALError::InvalidOperation));
    assert_eq!(ALError::from_al_code(AL_OUT_OF_MEMORY), Err(ALError::OutOfMemory));
    assert_eq!(ALError::from_al_code(0x1234), Err(ALError::UnknownError(0x1234)));
}

#[test]
fn alc_error_codes_translate() {
    assert_eq!(ALError::from_alc_code(0), Ok(()));
    // The ALC code space reuses the AL numbers with different meanings.
    assert_eq!(ALError::from_alc_code(0xA001), Err(ALError::InvalidDevice));
    assert_eq!(ALError::from_alc_code(0xA002), Err(ALError::InvalidContext));
    assert_eq!(ALError::from_alc_code(-7), Err(ALError::UnknownContextError(-7)));
}

#[test]
fn error_descriptions() {
    assert_eq!(ALError::InvalidName.description(), "Invalid Name");
    assert_eq!(ALError::InvalidEnum.description(), "Invalid Enum");
    assert_eq!(ALError::InvalidValue.description(), "Invalid Value");
    assert_eq!(ALError::InvalidOperation.description(), "Invalid Operation");
    assert_eq!(ALError::InvalidDevice.description(), "Invalid Device");
    assert_eq!(ALError::InvalidContext.description(), "Invalid Context");
    assert_eq!(ALError::OutOfMemory.description(), "Out of Memory");
    assert_eq!(ALError::Unsupported.description(), "Unsupported Feature");
    assert_eq!(ALError::UnknownError(3).description(), "Unknown OpenAL Error");
    assert_eq!(
        ALError::UnknownContextError(3).description(),
        "Unknown OpenAL Context Error"
    );
    assert_eq!(ALError::NulError.description(), "Interior Nul Byte");
    assert_eq!(ALError::Io.description(), "I/O Error");
    assert_eq!(ALError::FromUtf8Error.description(), "Invalid UTF-8");
}

#[test]
fn enum_value_lookup_is_filtered() {
    assert_eq!(checked_enum_value(0), Err(ALError::InvalidEnum));
    assert_eq!(checked_enum_value(-1), Err(ALError::InvalidEnum));
    assert_eq!(checked_enum_value(AL_STATIC), Ok(AL_STATIC));
}

#[test]
fn distance_model_roundtrip() {
    let models = [
        ALDistanceModel::InverseDistance,
        ALDistanceModel::InverseDistanceClamped,
        ALDistanceModel::LinearDistance,
        ALDistanceModel::LinearDistanceClamped,
        ALDistanceModel::ExponentDistance,
        ALDistanceModel::ExponentDistanceClamped,
    ];
    for m in models {
        assert_eq!(ALDistanceModel::from_alenum(m.to_alenum()), Ok(m));
    }
    assert_eq!(ALDistanceModel::InverseDistance.to_alenum(), AL_INVERSE_DISTANCE);
    assert_eq!(ALDistanceModel::ExponentDistance.to_alenum(), AL_EXPONENT_DISTANCE);
    assert_eq!(ALDistanceModel::from_alenum(AL_NONE), Err(ALError::InvalidEnum));
}

#[test]
fn source_state_translation() {
    assert_eq!(ALSourceState::from_alenum(AL_PLAYING), Ok(ALSourceState::Playing));
    assert_eq!(ALSourceState::from_alenum(AL_PAUSED), Ok(ALSourceState::Paused));
    assert_eq!(ALSourceState::from_alenum(0), Err(ALError::InvalidValue));
    assert_eq!(ALSourceState::Stopped.to_alenum(), 0x1014);
    assert!(ALSourceState::Playing.is_playing());
    assert!(!ALSourceState::Initial.is_playing());
}

#[test]
fn source_kind_translation() {
    assert_eq!(ALSourceKind::from_alenum(0x1030), Ok(ALSourceKind::Undetermined));
    assert_eq!(ALSourceKind::from_alenum(0x1028), Ok(ALSourceKind::Static));
    assert_eq!(ALSourceKind::from_alenum(0x1029), Ok(ALSourceKind::Streaming));
    assert_eq!(ALSourceKind::from_alenum(1), Err(ALError::InvalidValue));
}

#[test]
fn stereo32f_is_the_common_format() {
    let f = ALFormat::common_stereo32f(44_100);
    assert_eq!(f.depth, ALBitDepth::Float32);
    assert_eq!(f.channels, ALChannels::Stereo);
    assert_eq!(f.sample_rate, 44_100);
    assert_eq!(f.sample_type, ALSampleType::Float);
    assert_eq!(f.bit_depth_as_bytes(), 4);
    assert_eq!(f.basic_format(), Ok(AL_FORMAT_STEREO_FLOAT32));
}

#[test]
fn format_translations() {
    let quad = ALFormat {
        depth: ALBitDepth::Float32,
        channels: ALChannels::Quad,
        sample_rate: 48_000,
        sample_type: ALSampleType::Float,
    };
    assert_eq!(quad.internal_format(), AL_QUAD32F_SOFT);
    assert_eq!(quad.basic_format(), Err(ALError::Unsupported));

    let surround = ALFormat {
        depth: ALBitDepth::Int16,
        channels: ALChannels::Point51,
        sample_rate: 48_000,
        sample_type: ALSampleType::Short,
    };
    assert_eq!(surround.internal_format(), AL_5POINT1_16_SOFT);
    assert_eq!(surround.sample_type(), AL_SHORT_SOFT);

    let stereo8 = ALFormat {
        depth: ALBitDepth::Int8,
        channels: ALChannels::Stereo,
        sample_rate: 22_050,
        sample_type: ALSampleType::UnsignedByte,
    };
    assert_eq!(stereo8.internal_format(), AL_STEREO8_SOFT);
    assert_eq!(stereo8.bit_depth_as_bytes(), 1);

    let mono = ALFormat {
        depth: ALBitDepth::Int16,
        channels: ALChannels::Mono,
        sample_rate: 8_000,
        sample_type: ALSampleType::Short,
    };
    assert_eq!(mono.channels(), AL_MONO_SOFT);
    assert_eq!(mono.bit_depth_as_bytes(), 2);
}

#[test]
fn format_from_reported_parts() {
    let f = ALFormat::from_parts(16, 1, 44_100).unwrap();
    assert_eq!(f.depth, ALBitDepth::Int16);
    assert_eq!(f.channels, ALChannels::Mono);
    assert_eq!(f.sample_rate, 44_100);
    assert_eq!(f.basic_format(), Ok(AL_FORMAT_MONO16));

    let g = ALFormat::from_parts(32, 2, 96_000).unwrap();
    assert_eq!(g.depth, ALBitDepth::Float32);
    assert_eq!(g.channels, ALChannels::Stereo);

    assert_eq!(ALFormat::from_parts(24, 2, 44_100), Err(ALError::Unsupported));
    assert_eq!(ALFormat::from_parts(16, 6, 44_100), Err(ALError::Unsupported));
}
