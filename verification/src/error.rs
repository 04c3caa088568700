//! Translation of native error codes into library errors.
//!
//! The native library reports failures through an error queue read with
//! `alGetError` (per context) and `alcGetError` (per device). The unverified
//! shell reads those codes; the functions here give each code its meaning.

use vstd::prelude::*;

verus! {

/// `alGetError` codes.
pub const AL_NO_ERROR: i32 = 0;
pub const AL_INVALID_NAME: i32 = 0xA001;
pub const AL_INVALID_ENUM: i32 = 0xA002;
pub const AL_INVALID_VALUE: i32 = 0xA003;
pub const AL_INVALID_OPERATION: i32 = 0xA004;
pub const AL_OUT_OF_MEMORY: i32 = 0xA005;

/// `alcGetError` codes. They overlap numerically with the `AL_*` codes but
/// carry different meanings.
pub const ALC_NO_ERROR: i32 = 0;
pub const ALC_INVALID_DEVICE: i32 = 0xA001;
pub const ALC_INVALID_CONTEXT: i32 = 0xA002;
pub const ALC_INVALID_ENUM: i32 = 0xA003;
pub const ALC_INVALID_VALUE: i32 = 0xA004;
pub const ALC_OUT_OF_MEMORY: i32 = 0xA005;

/// Every way an operation on the audio library can fail.
///
/// The first seven variants mirror the native error codes; the two `Unknown`
/// variants keep a code the translation tables do not know. The remaining
/// variants stand for failures that arise on the Rust side of the boundary
/// (an interior NUL byte in a name, an I/O failure, a bad UTF-8 string) and
/// for operations the native implementation does not support.
#[derive(Debug, Clone, Copy, PartialEq, Eq, Structural)]
pub enum ALError {
    InvalidName,
    InvalidEnum,
    InvalidValue,
    InvalidOperation,
    InvalidDevice,
    InvalidContext,
    OutOfMemory,
    UnknownError(i32),
    UnknownContextError(i32),
    NulError,
    Io,
    FromUtf8Error,
    Unsupported,
}

pub type ALResult<T> = Result<T, ALError>;

impl ALError {
    /// Meaning of a code read from `alGetError`.
    pub open spec fn spec_from_al_code(code: i32) -> Result<(), ALError> {
        if code == AL_NO_ERROR {
            Ok(())
        } else if code == AL_INVALID_NAME {
            Err(ALError::InvalidName)
        } else if code == AL_INVALID_ENUM {
            Err(ALError::InvalidEnum)
        } else if code == AL_INVALID_VALUE {
            Err(ALError::InvalidValue)
        } else if code == AL_INVALID_OPERATION {
            Err(ALError::InvalidOperation)
        } else if code == AL_OUT_OF_MEMORY {
            Err(ALError::OutOfMemory)
        } else {
            Err(ALError::UnknownError(code))
        }
    }

    /// Meaning of a code read from `alcGetError`.
    pub open spec fn spec_from_alc_code(code: i32) -> Result<(), ALError> {
        if code == ALC_NO_ERROR {
            Ok(())
        } else if code == ALC_INVALID_DEVICE {
            Err(ALError::InvalidDevice)
        } else if code == ALC_INVALID_CONTEXT {
            Err(ALError::InvalidContext)
        } else if code == ALC_INVALID_ENUM {
            Err(ALError::InvalidEnum)
        } else if code == ALC_INVALID_VALUE {
            Err(ALError::InvalidValue)
        } else if code == ALC_OUT_OF_MEMORY {
            Err(ALError::OutOfMemory)
        } else {
            Err(ALError::UnknownContextError(code))
        }
    }

    /// Translate a code read from `alGetError`: `Ok` exactly on
    /// `AL_NO_ERROR`, the matching error otherwise.
    pub fn from_al_code(code: i32) -> (r: Result<(), ALError>)
        ensures
            r == Self::spec_from_al_code(code),
            r is Ok <==> code == AL_NO_ERROR,
    {
        if code == AL_NO_ERROR {
            Ok(())
        } else if code == AL_INVALID_NAME {
            Err(ALError::InvalidName)
        } else if code == AL_INVALID_ENUM {
            Err(ALError::InvalidEnum)
        } else if code == AL_INVALID_VALUE {
            Err(ALError::InvalidValue)
        } else if code == AL_INVALID_OPERATION {
            Err(ALError::InvalidOperation)
        } else if code == AL_OUT_OF_MEMORY {
            Err(ALError::OutOfMemory)
        } else {
            Err(ALError::UnknownError(code))
        }
    }

    /// Translate a code read from `alcGetError`: `Ok` exactly on
    /// `ALC_NO_ERROR`, the matching error otherwise.
    pub fn from_alc_code(code: i32) -> (r: Result<(), ALError>)
        ensures
            r == Self::spec_from_alc_code(code),
            r is Ok <==> code == ALC_NO_ERROR,
    {
        if code == ALC_NO_ERROR {
            Ok(())
        } else if code == ALC_INVALID_DEVICE {
            Err(ALError::InvalidDevice)
        } else if code == ALC_INVALID_CONTEXT {
            Err(ALError::InvalidContext)
        } else if code == ALC_INVALID_ENUM {
            Err(ALError::InvalidEnum)
        } else if code == ALC_INVALID_VALUE {
            Err(ALError::InvalidValue)
        } else if code == ALC_OUT_OF_MEMORY {
            Err(ALError::OutOfMemory)
        } else {
            Err(ALError::UnknownContextError(code))
        }
    }

    /// The text shown for the error.
    pub open spec fn spec_description(self) -> Seq<char> {
        match self {
            ALError::InvalidName => "Invalid Name"@,
            ALError::InvalidEnum => "Invalid Enum"@,
            ALError::InvalidValue => "Invalid Value"@,
            ALError::InvalidOperation => "Invalid Operation"@,
            ALError::InvalidDevice => "Invalid Device"@,
            ALError::InvalidContext => "Invalid Context"@,
            ALError::OutOfMemory => "Out of Memory"@,
            ALError::UnknownError(_) => "Unknown OpenAL Error"@,
            ALError::UnknownContextError(_) => "Unknown OpenAL Context Error"@,
            ALError::NulError => "Interior Nul Byte"@,
            ALError::Io => "I/O Error"@,
            ALError::FromUtf8Error => "Invalid UTF-8"@,
            ALError::Unsupported => "Unsupported Feature"@,
        }
    }

    /// A short human-readable description of the error.
    pub fn description(&self) -> (r: &'static str)
        ensures
            r@ == self.spec_description(),
    {
        match *self {
            ALError::InvalidName => "Invalid Name",
            ALError::InvalidEnum => "Invalid Enum",
            ALError::InvalidValue => "Invalid Value",
            ALError::InvalidOperation => "Invalid Operation",
            ALError::InvalidDevice => "Invalid Device",
            ALError::InvalidContext => "Invalid Context",
            ALError::OutOfMemory => "Out of Memory",
            ALError::UnknownError(_) => "Unknown OpenAL Error",
            ALError::UnknownContextError(_) => "Unknown OpenAL Context Error",
            ALError::NulError => "Interior Nul Byte",
            ALError::Io => "I/O Error",
            ALError::FromUtf8Error => "Invalid UTF-8",
            ALError::Unsupported => "Unsupported Feature",
        }
    }
}

/// Filter a value returned by `alGetEnumValue` / `alcGetEnumValue`: the
/// native call reports an unknown enumeration name as `0` (or `-1` in some
/// implementations), and any other value is the enumeration's value.
pub fn checked_enum_value(value: i32) -> (r: ALResult<i32>)
    ensures
        value != 0 && value != -1 ==> (r matches Ok(v) && v == value),
        value == 0 || value == -1 ==> (r matches Err(e) && e == ALError::InvalidEnum),
{
    if value == 0 || value == -1 {
        Err(ALError::InvalidEnum)
    } else {
        Ok(value)
    }
}

} // verus!
