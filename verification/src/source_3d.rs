//! Sources positioned in 3D space.
//!
//! A 3D source is an ordinary source whose position is interpreted relative
//! to the listener, so spatial effects apply to it. Converting back and
//! forth flips that one property; the position, velocity and direction
//! vectors themselves are floating-point properties set through foreign
//! calls in the unverified shell.

use vstd::prelude::*;

use crate::distance_model::{distance_model_param, ALDistanceModel, AL_NONE};
use crate::source::{ALSource, AL_FALSE, AL_TRUE};
use crate::ALObject;

verus! {

/// `alSourcei` parameter for a per-source distance model; it takes effect
/// once `AL_SOURCE_DISTANCE_MODEL` has been enabled globally.
pub const AL_SOURCE_DISTANCE_MODEL: i32 = 0x200;

/// An `ALSource` extended with 3D relative positioning.
#[derive(Debug, Clone)]
pub struct ALSource3D {
    source: ALSource,
}

impl ALSource3D {
    /// The wrapped source.
    pub closed spec fn spec_source(self) -> ALSource {
        self.source
    }

    /// A 3D source always positions relative to the listener.
    pub open spec fn wf(self) -> bool {
        self.spec_source().spec_relative()
    }

    /// Convert a source into a 3D source, turning relative positioning on.
    /// The returned value `alSourcei` must be called with for
    /// `AL_SOURCE_RELATIVE` is `AL_TRUE`.
    pub fn from_source(source: ALSource) -> (r: (ALSource3D, i32))
        ensures
            r.0.wf(),
            r.0.spec_source().raw_id() == source.raw_id(),
            r.0.spec_source().spec_listener() == source.spec_listener(),
            r.0.spec_source().spec_queue() == source.spec_queue(),
            r.0.spec_source().spec_looping() == source.spec_looping(),
            r.1 == AL_TRUE,
    {
        let mut source = source;
        let cmd = source.set_relative(true);
        (ALSource3D { source }, cmd)
    }

    /// Convert the 3D source back into an ordinary source, turning relative
    /// positioning off again. The returned value `alSourcei` must be called
    /// with for `AL_SOURCE_RELATIVE` is `AL_FALSE`.
    pub fn into_source(self) -> (r: (ALSource, i32))
        ensures
            !r.0.spec_relative(),
            r.0.raw_id() == self.spec_source().raw_id(),
            r.0.spec_listener() == self.spec_source().spec_listener(),
            r.0.spec_queue() == self.spec_source().spec_queue(),
            r.0.spec_looping() == self.spec_source().spec_looping(),
            r.1 == AL_FALSE,
    {
        let mut source = self.source;
        let cmd = source.set_relative(false);
        (source, cmd)
    }

    /// The wrapped source, for the operations every source supports.
    pub fn source(&self) -> (r: &ALSource)
        ensures
            r == self.spec_source(),
    {
        &self.source
    }

    /// The raw handle, for handing to native calls.
    pub fn raw(&self) -> (r: u32)
        ensures
            r == self.spec_source().raw_id(),
    {
        self.source.raw()
    }

    /// The value `alSourcei` must be called with for
    /// `AL_SOURCE_DISTANCE_MODEL` to select `model` for this source alone:
    /// `AL_NONE` switches per-source attenuation off.
    pub fn set_distance_model(&self, model: Option<ALDistanceModel>) -> (r: i32)
        ensures
            model matches Some(m) ==> r == m.spec_to_alenum(),
            model is None ==> r == AL_NONE,
    {
        distance_model_param(model)
    }
}

} // verus!
