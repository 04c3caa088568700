//! Effect objects generated by the `ALC_EXT_EFX` extension.
//!
//! An effect object owns a native handle and belongs to a listener's
//! context; its parameters are described by the structures in
//! [`crate::effects`]. Generating and deleting the native object are
//! foreign calls made by the unverified shell.

use vstd::prelude::*;

use crate::error::{ALError, ALResult};
use crate::listener::ALListener;
use crate::ALObject;

verus! {

/// A DSP effect object of a listener's context.
#[derive(Debug, Clone, Copy)]
pub struct ALEffect {
    handle: u32,
    listener: ALListener,
}

impl ALEffect {
    /// The listener whose context the effect belongs to.
    pub closed spec fn spec_listener(self) -> ALListener {
        self.listener
    }

    /// Wrap the handle an `alGenEffects` call returned for `listener`'s
    /// context. Generated handles are never zero.
    pub fn new(handle: u32, listener: ALListener) -> (r: ALEffect)
        requires
            handle != 0,
        ensures
            r.raw_id() == handle,
            r.spec_listener() == listener,
    {
        ALEffect { handle, listener }
    }

    /// The listener this effect belongs to.
    pub fn listener(&self) -> (r: ALListener)
        ensures
            r == self.spec_listener(),
    {
        self.listener
    }
}

impl ALObject for ALEffect {
    closed spec fn raw_id(&self) -> u32 {
        self.handle
    }

    fn raw(&self) -> u32 {
        self.handle
    }

    fn into_raw(self) -> u32 {
        self.handle
    }

    fn is_valid(&self) -> bool {
        self.handle != 0
    }

    fn check(&self) -> ALResult<()> {
        if self.handle != 0 {
            Ok(())
        } else {
            Err(ALError::InvalidValue)
        }
    }
}

} // verus!
