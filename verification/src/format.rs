//! Sample formats: channel layouts, bit depths, sample types, and their
//! translation to the enumeration values the native library expects.

use vstd::prelude::*;

use crate::error::{ALError, ALResult};

verus! {

/// Basic buffer formats accepted by `alBufferData`.
pub const AL_FORMAT_MONO8: i32 = 0x1100;
pub const AL_FORMAT_MONO16: i32 = 0x1101;
pub const AL_FORMAT_STEREO8: i32 = 0x1102;
pub const AL_FORMAT_STEREO16: i32 = 0x1103;
/// `AL_EXT_float32` formats.
pub const AL_FORMAT_MONO_FLOAT32: i32 = 0x10010;
pub const AL_FORMAT_STEREO_FLOAT32: i32 = 0x10011;

/// Channel layouts of the `AL_SOFT_buffer_samples` extension.
pub const AL_MONO_SOFT: i32 = 0x1500;
pub const AL_STEREO_SOFT: i32 = 0x1501;
pub const AL_REAR_SOFT: i32 = 0x1502;
pub const AL_QUAD_SOFT: i32 = 0x1503;
pub const AL_5POINT1_SOFT: i32 = 0x1504;
pub const AL_6POINT1_SOFT: i32 = 0x1505;
pub const AL_7POINT1_SOFT: i32 = 0x1506;

/// Sample types of the `AL_SOFT_buffer_samples` extension.
pub const AL_BYTE_SOFT: i32 = 0x1400;
pub const AL_UNSIGNED_BYTE_SOFT: i32 = 0x1401;
pub const AL_SHORT_SOFT: i32 = 0x1402;
pub const AL_UNSIGNED_SHORT_SOFT: i32 = 0x1403;
pub const AL_INT_SOFT: i32 = 0x1404;
pub const AL_UNSIGNED_INT_SOFT: i32 = 0x1405;
pub const AL_FLOAT_SOFT: i32 = 0x1406;
pub const AL_DOUBLE_SOFT: i32 = 0x1407;
pub const AL_BYTE3_SOFT: i32 = 0x1408;
pub const AL_UNSIGNED_BYTE3_SOFT: i32 = 0x1409;

/// Internal storage formats of the `AL_SOFT_buffer_samples` extension.
pub const AL_MONO8_SOFT: i32 = 0x1100;
pub const AL_MONO16_SOFT: i32 = 0x1101;
pub const AL_MONO32F_SOFT: i32 = 0x10010;
pub const AL_STEREO8_SOFT: i32 = 0x1102;
pub const AL_STEREO16_SOFT: i32 = 0x1103;
pub const AL_STEREO32F_SOFT: i32 = 0x10011;
pub const AL_QUAD8_SOFT: i32 = 0x1204;
pub const AL_QUAD16_SOFT: i32 = 0x1205;
pub const AL_QUAD32F_SOFT: i32 = 0x1206;
pub const AL_REAR8_SOFT: i32 = 0x1207;
pub const AL_REAR16_SOFT: i32 = 0x1208;
pub const AL_REAR32F_SOFT: i32 = 0x1209;
pub const AL_5POINT1_8_SOFT: i32 = 0x120A;
pub const AL_5POINT1_16_SOFT: i32 = 0x120B;
pub const AL_5POINT1_32F_SOFT: i32 = 0x120C;
pub const AL_6POINT1_8_SOFT: i32 = 0x120D;
pub const AL_6POINT1_16_SOFT: i32 = 0x120E;
pub const AL_6POINT1_32F_SOFT: i32 = 0x120F;
pub const AL_7POINT1_8_SOFT: i32 = 0x1210;
pub const AL_7POINT1_16_SOFT: i32 = 0x1211;
pub const AL_7POINT1_32F_SOFT: i32 = 0x1212;

/// Sample rate in Hz.
pub type ALSampleRate = u32;

/// Channel layout of a sample.
#[derive(Debug, Copy, Clone, PartialEq, Eq, Structural)]
pub enum ALChannels {
    /// Monophonic sample
    Mono,
    /// Stereo sample
    Stereo,
    /// Quadraphonic sample
    Quad,
    /// Rear speaker sample
    Rear,
    /// 5.1 Surround Sound sample
    Point51,
    /// 6.1 Surround Sound sample
    Point61,
    /// 7.1 Surround Sound sample
    Point71,
}

/// Bit depth a sample is stored with.
#[derive(Debug, Copy, Clone, PartialEq, Eq, Structural)]
pub enum ALBitDepth {
    /// 8-bit integer format, 256 discrete values
    Int8,
    /// 16-bit integer format, 65,536 discrete values
    Int16,
    /// 32-bit floating point format, values between -1.0 and 1.0
    Float32,
}

/// Type of the individual sample values handed to the native library.
#[derive(Debug, Copy, Clone, PartialEq, Eq, Structural)]
pub enum ALSampleType {
    Byte,
    UnsignedByte,
    Short,
    UnsignedShort,
    Int,
    UnsignedInt,
    Float,
    Double,
    Byte3,
    UnsignedByte3,
}

/// A complete description of sample data: how it is stored internally, its
/// channel layout, its sample rate and the type of the values handed over.
#[derive(Debug, Copy, Clone, PartialEq, Eq, Structural)]
pub struct ALFormat {
    /// Internal bit-depth
    pub depth: ALBitDepth,
    /// Audio channels
    pub channels: ALChannels,
    /// Sample rate in Hz
    pub sample_rate: ALSampleRate,
    /// Sample type
    pub sample_type: ALSampleType,
}

impl ALFormat {
    /// Bytes taken by one sample value of the given depth.
    pub open spec fn spec_bit_depth_bytes(depth: ALBitDepth) -> usize {
        match depth {
            ALBitDepth::Int8 => 1,
            ALBitDepth::Int16 => 2,
            ALBitDepth::Float32 => 4,
        }
    }

    /// The internal storage format, as an `AL_SOFT_buffer_samples` value.
    pub open spec fn spec_internal_format(depth: ALBitDepth, channels: ALChannels) -> i32 {
        match depth {
            ALBitDepth::Int8 => match channels {
                ALChannels::Mono => AL_MONO8_SOFT,
                ALChannels::Stereo => AL_STEREO8_SOFT,
                ALChannels::Quad => AL_QUAD8_SOFT,
                ALChannels::Rear => AL_REAR8_SOFT,
                ALChannels::Point51 => AL_5POINT1_8_SOFT,
                ALChannels::Point61 => AL_6POINT1_8_SOFT,
                ALChannels::Point71 => AL_7POINT1_8_SOFT,
            },
            ALBitDepth::Int16 => match channels {
                ALChannels::Mono => AL_MONO16_SOFT,
                ALChannels::Stereo => AL_STEREO16_SOFT,
                ALChannels::Quad => AL_QUAD16_SOFT,
                ALChannels::Rear => AL_REAR16_SOFT,
                ALChannels::Point51 => AL_5POINT1_16_SOFT,
                ALChannels::Point61 => AL_6POINT1_16_SOFT,
                ALChannels::Point71 => AL_7POINT1_16_SOFT,
            },
            ALBitDepth::Float32 => match channels {
                ALChannels::Mono => AL_MONO32F_SOFT,
                ALChannels::Stereo => AL_STEREO32F_SOFT,
                ALChannels::Quad => AL_QUAD32F_SOFT,
                ALChannels::Rear => AL_REAR32F_SOFT,
                ALChannels::Point51 => AL_5POINT1_32F_SOFT,
                ALChannels::Point61 => AL_6POINT1_32F_SOFT,
                ALChannels::Point71 => AL_7POINT1_32F_SOFT,
            },
        }
    }

    /// The channel layout as an `AL_SOFT_buffer_samples` value.
    pub open spec fn spec_channels(channels: ALChannels) -> i32 {
        match channels {
            ALChannels::Mono => AL_MONO_SOFT,
            ALChannels::Stereo => AL_STEREO_SOFT,
            ALChannels::Quad => AL_QUAD_SOFT,
            ALChannels::Rear => AL_REAR_SOFT,
            ALChannels::Point51 => AL_5POINT1_SOFT,
            ALChannels::Point61 => AL_6POINT1_SOFT,
            ALChannels::Point71 => AL_7POINT1_SOFT,
        }
    }

    /// The sample type as an `AL_SOFT_buffer_samples` value.
    pub open spec fn spec_sample_type(st: ALSampleType) -> i32 {
        match st {
            ALSampleType::Byte => AL_BYTE_SOFT,
            ALSampleType::UnsignedByte => AL_UNSIGNED_BYTE_SOFT,
            ALSampleType::Short => AL_SHORT_SOFT,
            ALSampleType::UnsignedShort => AL_UNSIGNED_SHORT_SOFT,
            ALSampleType::Int => AL_INT_SOFT,
            ALSampleType::UnsignedInt => AL_UNSIGNED_INT_SOFT,
            ALSampleType::Float => AL_FLOAT_SOFT,
            ALSampleType::Double => AL_DOUBLE_SOFT,
            ALSampleType::Byte3 => AL_BYTE3_SOFT,
            ALSampleType::UnsignedByte3 => AL_UNSIGNED_BYTE3_SOFT,
        }
    }

    /// The basic `alBufferData` format for this description, where one
    /// exists: the core formats cover mono and stereo only.
    pub open spec fn spec_basic_format(self) -> ALResult<i32> {
        match self.depth {
            ALBitDepth::Int8 => match self.channels {
                ALChannels::Mono => Ok(AL_FORMAT_MONO8),
                ALChannels::Stereo => Ok(AL_FORMAT_STEREO8),
                _ => Err(ALError::Unsupported),
            },
            ALBitDepth::Int16 => match self.channels {
                ALChannels::Mono => Ok(AL_FORMAT_MONO16),
                ALChannels::Stereo => Ok(AL_FORMAT_STEREO16),
                _ => Err(ALError::Unsupported),
            },
            ALBitDepth::Float32 => match self.channels {
                ALChannels::Mono => Ok(AL_FORMAT_MONO_FLOAT32),
                ALChannels::Stereo => Ok(AL_FORMAT_STEREO_FLOAT32),
                _ => Err(ALError::Unsupported),
            },
        }
    }

    /// The common 32-bit float stereo format at the given sample rate.
    pub fn common_stereo32f(sample_rate: ALSampleRate) -> (r: ALFormat)
        ensures
            r == (ALFormat {
                depth: ALBitDepth::Float32,
                channels: ALChannels::Stereo,
                sample_rate: sample_rate,
                sample_type: ALSampleType::Float,
            }),
    {
        ALFormat {
            depth: ALBitDepth::Float32,
            channels: ALChannels::Stereo,
            sample_rate: sample_rate,
            sample_type: ALSampleType::Float,
        }
    }

    /// Bytes taken by one sample value at this format's bit depth.
    pub fn bit_depth_as_bytes(&self) -> (r: usize)
        ensures
            r == Self::spec_bit_depth_bytes(self.depth),
    {
        match self.depth {
            ALBitDepth::Int8 => 1,
            ALBitDepth::Int16 => 2,
            ALBitDepth::Float32 => 4,
        }
    }

    /// The internal storage format value for this description.
    pub fn internal_format(&self) -> (r: i32)
        ensures
            r == Self::spec_internal_format(self.depth, self.channels),
    {
        match self.depth {
            ALBitDepth::Int8 => match self.channels {
                ALChannels::Mono => AL_MONO8_SOFT,
                ALChannels::Stereo => AL_STEREO8_SOFT,
                ALChannels::Quad => AL_QUAD8_SOFT,
                ALChannels::Rear => AL_REAR8_SOFT,
                ALChannels::Point51 => AL_5POINT1_8_SOFT,
                ALChannels::Point61 => AL_6POINT1_8_SOFT,
                ALChannels::Point71 => AL_7POINT1_8_SOFT,
            },
            ALBitDepth::Int16 => match self.channels {
                ALChannels::Mono => AL_MONO16_SOFT,
                ALChannels::Stereo => AL_STEREO16_SOFT,
                ALChannels::Quad => AL_QUAD16_SOFT,
                ALChannels::Rear => AL_REAR16_SOFT,
                ALChannels::Point51 => AL_5POINT1_16_SOFT,
                ALChannels::Point61 => AL_6POINT1_16_SOFT,
                ALChannels::Point71 => AL_7POINT1_16_SOFT,
            },
            ALBitDepth::Float32 => match self.channels {
                ALChannels::Mono => AL_MONO32F_SOFT,
                ALChannels::Stereo => AL_STEREO32F_SOFT,
                ALChannels::Quad => AL_QUAD32F_SOFT,
                ALChannels::Rear => AL_REAR32F_SOFT,
                ALChannels::Point51 => AL_5POINT1_32F_SOFT,
                ALChannels::Point61 => AL_6POINT1_32F_SOFT,
                ALChannels::Point71 => AL_7POINT1_32F_SOFT,
            },
        }
    }

    /// The channel layout value for this description.
    pub fn channels(&self) -> (r: i32)
        ensures
            r == Self::spec_channels(self.channels),
    {
        match self.channels {
            ALChannels::Mono => AL_MONO_SOFT,
            ALChannels::Stereo => AL_STEREO_SOFT,
            ALChannels::Quad => AL_QUAD_SOFT,
            ALChannels::Rear => AL_REAR_SOFT,
            ALChannels::Point51 => AL_5POINT1_SOFT,
            ALChannels::Point61 => AL_6POINT1_SOFT,
            ALChannels::Point71 => AL_7POINT1_SOFT,
        }
    }

    /// The sample type value for this description.
    pub fn sample_type(&self) -> (r: i32)
        ensures
            r == Self::spec_sample_type(self.sample_type),
    {
        match self.sample_type {
            ALSampleType::Byte => AL_BYTE_SOFT,
            ALSampleType::UnsignedByte => AL_UNSIGNED_BYTE_SOFT,
            ALSampleType::Short => AL_SHORT_SOFT,
            ALSampleType::UnsignedShort => AL_UNSIGNED_SHORT_SOFT,
            ALSampleType::Int => AL_INT_SOFT,
            ALSampleType::UnsignedInt => AL_UNSIGNED_INT_SOFT,
            ALSampleType::Float => AL_FLOAT_SOFT,
            ALSampleType::Double => AL_DOUBLE_SOFT,
            ALSampleType::Byte3 => AL_BYTE3_SOFT,
            ALSampleType::UnsignedByte3 => AL_UNSIGNED_BYTE3_SOFT,
        }
    }

    /// The basic `alBufferData` format for this description, `Unsupported`
    /// when the core formats have none for its channel layout.
    pub fn basic_format(&self) -> (r: ALResult<i32>)
        ensures
            r == self.spec_basic_format(),
    {
        match self.depth {
            ALBitDepth::Int8 => match self.channels {
                ALChannels::Mono => Ok(AL_FORMAT_MONO8),
                ALChannels::Stereo => Ok(AL_FORMAT_STEREO8),
                _ => Err(ALError::Unsupported),
            },
            ALBitDepth::Int16 => match self.channels {
                ALChannels::Mono => Ok(AL_FORMAT_MONO16),
                ALChannels::Stereo => Ok(AL_FORMAT_STEREO16),
                _ => Err(ALError::Unsupported),
            },
            ALBitDepth::Float32 => match self.channels {
                ALChannels::Mono => Ok(AL_FORMAT_MONO_FLOAT32),
                ALChannels::Stereo => Ok(AL_FORMAT_STEREO_FLOAT32),
                _ => Err(ALError::Unsupported),
            },
        }
    }

    /// Reassemble a format from the values the native library reports for a
    /// buffer's `AL_BITS`, `AL_CHANNELS` and `AL_FREQUENCY` queries. Only
    /// the six basic mono/stereo formats can be reported that way; anything
    /// else is `Unsupported`.
    pub fn from_parts(bits: usize, channels: usize, sample_rate: ALSampleRate) -> (r: ALResult<
        ALFormat,
    >)
        ensures
            (bits == 8 || bits == 16 || bits == 32) && (channels == 1 || channels == 2) ==> (
            r matches Ok(f) && f == (ALFormat {
                depth: if bits == 8 {
                    ALBitDepth::Int8
                } else if bits == 16 {
                    ALBitDepth::Int16
                } else {
                    ALBitDepth::Float32
                },
                channels: if channels == 1 {
                    ALChannels::Mono
                } else {
                    ALChannels::Stereo
                },
                sample_rate: sample_rate,
                sample_type: if bits == 8 {
                    ALSampleType::UnsignedByte
                } else if bits == 16 {
                    ALSampleType::Short
                } else {
                    ALSampleType::Float
                },
            })),
            !((bits == 8 || bits == 16 || bits == 32) && (channels == 1 || channels == 2))
                ==> r == Err::<ALFormat, ALError>(ALError::Unsupported),
    {
        let depth = if bits == 8 {
            ALBitDepth::Int8
        } else if bits == 16 {
            ALBitDepth::Int16
        } else if bits == 32 {
            ALBitDepth::Float32
        } else {
            return Err(ALError::Unsupported);
        };
        let chans = if channels == 1 {
            ALChannels::Mono
        } else if channels == 2 {
            ALChannels::Stereo
        } else {
            return Err(ALError::Unsupported);
        };
        let sample_type = match depth {
            ALBitDepth::Int8 => ALSampleType::UnsignedByte,
            ALBitDepth::Int16 => ALSampleType::Short,
            ALBitDepth::Float32 => ALSampleType::Float,
        };
        Ok(ALFormat { depth, channels: chans, sample_rate, sample_type })
    }
}

/// Two formats that store samples the same way have the same internal
/// format value: the translation loses no information about depth or
/// channel layout.
pub proof fn lemma_internal_format_injective(a: ALFormat, b: ALFormat)
    ensures
        ALFormat::spec_internal_format(a.depth, a.channels) == ALFormat::spec_internal_format(
            b.depth,
            b.channels,
        ) ==> a.depth == b.depth && a.channels == b.channels,
{
}

} // verus!
