//! Distance attenuation models and their enumeration values.

use vstd::prelude::*;

use crate::error::{ALError, ALResult};

verus! {

/// `AL_NONE`: no distance model selected.
pub const AL_NONE: i32 = 0;
pub const AL_INVERSE_DISTANCE: i32 = 0xD001;
pub const AL_INVERSE_DISTANCE_CLAMPED: i32 = 0xD002;
pub const AL_LINEAR_DISTANCE: i32 = 0xD003;
pub const AL_LINEAR_DISTANCE_CLAMPED: i32 = 0xD004;
pub const AL_EXPONENT_DISTANCE: i32 = 0xD005;
pub const AL_EXPONENT_DISTANCE_CLAMPED: i32 = 0xD006;

/// How the native engine attenuates a source's gain with its distance from
/// the listener.
#[derive(Debug, Copy, Clone, Eq, PartialEq, Structural)]
pub enum ALDistanceModel {
    InverseDistance,
    InverseDistanceClamped,
    LinearDistance,
    LinearDistanceClamped,
    ExponentDistance,
    ExponentDistanceClamped,
}

impl ALDistanceModel {
    /// The enumeration value naming this model.
    pub open spec fn spec_to_alenum(self) -> i32 {
        match self {
            ALDistanceModel::InverseDistance => AL_INVERSE_DISTANCE,
            ALDistanceModel::InverseDistanceClamped => AL_INVERSE_DISTANCE_CLAMPED,
            ALDistanceModel::LinearDistance => AL_LINEAR_DISTANCE,
            ALDistanceModel::LinearDistanceClamped => AL_LINEAR_DISTANCE_CLAMPED,
            ALDistanceModel::ExponentDistance => AL_EXPONENT_DISTANCE,
            ALDistanceModel::ExponentDistanceClamped => AL_EXPONENT_DISTANCE_CLAMPED,
        }
    }

    /// The model a reported enumeration value names, `InvalidEnum` for any
    /// value that names none.
    pub open spec fn spec_from_alenum(model: i32) -> ALResult<ALDistanceModel> {
        if model == AL_INVERSE_DISTANCE {
            Ok(ALDistanceModel::InverseDistance)
        } else if model == AL_INVERSE_DISTANCE_CLAMPED {
            Ok(ALDistanceModel::InverseDistanceClamped)
        } else if model == AL_LINEAR_DISTANCE {
            Ok(ALDistanceModel::LinearDistance)
        } else if model == AL_LINEAR_DISTANCE_CLAMPED {
            Ok(ALDistanceModel::LinearDistanceClamped)
        } else if model == AL_EXPONENT_DISTANCE {
            Ok(ALDistanceModel::ExponentDistance)
        } else if model == AL_EXPONENT_DISTANCE_CLAMPED {
            Ok(ALDistanceModel::ExponentDistanceClamped)
        } else {
            Err(ALError::InvalidEnum)
        }
    }

    pub fn to_alenum(&self) -> (r: i32)
        ensures
            r == self.spec_to_alenum(),
    {
        match *self {
            ALDistanceModel::InverseDistance => AL_INVERSE_DISTANCE,
            ALDistanceModel::InverseDistanceClamped => AL_INVERSE_DISTANCE_CLAMPED,
            ALDistanceModel::LinearDistance => AL_LINEAR_DISTANCE,
            ALDistanceModel::LinearDistanceClamped => AL_LINEAR_DISTANCE_CLAMPED,
            ALDistanceModel::ExponentDistance => AL_EXPONENT_DISTANCE,
            ALDistanceModel::ExponentDistanceClamped => AL_EXPONENT_DISTANCE_CLAMPED,
        }
    }

    pub fn from_alenum(model: i32) -> (r: ALResult<ALDistanceModel>)
        ensures
            r == Self::spec_from_alenum(model),
    {
        if model == AL_INVERSE_DISTANCE {
            Ok(ALDistanceModel::InverseDistance)
        } else if model == AL_INVERSE_DISTANCE_CLAMPED {
            Ok(ALDistanceModel::InverseDistanceClamped)
        } else if model == AL_LINEAR_DISTANCE {
            Ok(ALDistanceModel::LinearDistance)
        } else if model == AL_LINEAR_DISTANCE_CLAMPED {
            Ok(ALDistanceModel::LinearDistanceClamped)
        } else if model == AL_EXPONENT_DISTANCE {
            Ok(ALDistanceModel::ExponentDistance)
        } else if model == AL_EXPONENT_DISTANCE_CLAMPED {
            Ok(ALDistanceModel::ExponentDistanceClamped)
        } else {
            Err(ALError::InvalidEnum)
        }
    }
}

/// The parameter value for selecting an optional distance model: `AL_NONE`
/// switches attenuation off, otherwise the chosen model's value.
pub fn distance_model_param(model: Option<ALDistanceModel>) -> (r: i32)
    ensures
        model matches Some(m) ==> r == m.spec_to_alenum(),
        model is None ==> r == AL_NONE,
{
    match model {
        Some(m) => m.to_alenum(),
        None => AL_NONE,
    }
}

/// Translating a model to its enumeration value and back yields the model
/// again.
pub proof fn lemma_distance_model_roundtrip(m: ALDistanceModel)
    ensures
        ALDistanceModel::spec_from_alenum(m.spec_to_alenum()) == Ok::<
            ALDistanceModel,
            ALError,
        >(m),
{
}

/// Translating an accepted enumeration value to its model and back yields
/// the value again; every other value is rejected as `InvalidEnum`.
pub proof fn lemma_alenum_roundtrip(v: i32)
    ensures
        ALDistanceModel::spec_from_alenum(v) matches Ok(m) ==> m.spec_to_alenum() == v,
        ALDistanceModel::spec_from_alenum(v) is Err ==> ALDistanceModel::spec_from_alenum(v)
            == Err::<ALDistanceModel, ALError>(ALError::InvalidEnum),
{
}

} // verus!
