//! The listener: the single "ears" entity of a context.
//!
//! Every context has exactly one listener, so the wrapper simply carries its
//! context. Gain, position, velocity and orientation are floating-point
//! properties set through foreign calls in the unverified shell; what stands
//! here is the listener's place in the ownership chain and the distance
//! model selection it forwards.

use vstd::prelude::*;

use crate::context::ALContext;
use crate::device::ALDevice;
use crate::distance_model::{distance_model_param, ALDistanceModel, AL_NONE};

verus! {

/// `alGetInteger` parameter naming the current distance model.
pub const AL_DISTANCE_MODEL: i32 = 0xD000;
/// `alListenerf` / `alGetListenerf` parameter for the master gain.
pub const AL_GAIN: i32 = 0x100A;
/// `alListener3f` parameters for the spatial properties.
pub const AL_POSITION: i32 = 0x1004;
pub const AL_VELOCITY: i32 = 0x1006;
pub const AL_ORIENTATION: i32 = 0x100F;
/// Global `alGetFloat` parameters the listener exposes.
pub const AL_DOPPLER_FACTOR: i32 = 0xC000;
pub const AL_SPEED_OF_SOUND: i32 = 0xC003;

/// The listener of a context: the point the engine renders audio for.
#[derive(Debug, Clone, Copy, PartialEq, Eq, Structural)]
pub struct ALListener {
    context: ALContext,
}

impl ALListener {
    /// The context this listener belongs to.
    pub closed spec fn spec_context(self) -> ALContext {
        self.context
    }

    /// Wrap the listener of `context`.
    pub fn new(context: ALContext) -> (r: ALListener)
        ensures
            r.spec_context() == context,
    {
        ALListener { context }
    }

    /// The context this listener renders for.
    pub fn context(&self) -> (r: ALContext)
        ensures
            r == self.spec_context(),
    {
        self.context
    }

    /// The device at the root of this listener's ownership chain.
    pub fn device(&self) -> (r: ALDevice)
        ensures
            r == self.spec_context().spec_device(),
    {
        self.context.device()
    }

    /// The value `alDistanceModel` must be called with to select `model`:
    /// `AL_NONE` switches distance attenuation off.
    pub fn set_distance_model(&self, model: Option<ALDistanceModel>) -> (r: i32)
        ensures
            model matches Some(m) ==> r == m.spec_to_alenum(),
            model is None ==> r == AL_NONE,
    {
        distance_model_param(model)
    }
}

} // verus!
