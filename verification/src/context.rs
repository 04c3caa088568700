//! The rendering context bound to a device.
//!
//! A context must be made current — globally or for the current thread —
//! before audio commands take effect, and the way it was made current
//! decides how it must be released on teardown. That choice is the state
//! tracked here; creating, binding and destroying the native context are
//! foreign calls made by the unverified shell.

use vstd::prelude::*;

use crate::device::ALDevice;

verus! {

/// How a context is released before it is destroyed: the binding that was
/// set is the binding that must be cleared.
#[derive(Debug, Clone, Copy, PartialEq, Eq, Structural)]
pub enum ALContextRelease {
    /// The context was current for one thread: clear the thread context.
    ClearThreadContext,
    /// The context was globally current: clear the current context.
    ClearCurrentContext,
}

/// A rendering context created from an opened device. The handle is the
/// native pointer, kept as an opaque identifier; the context keeps the
/// device it was created from, the innermost edge of the ownership chain
/// device → context → listener → source.
#[derive(Debug, Clone, Copy, PartialEq, Eq, Structural)]
pub struct ALContext {
    handle: u64,
    device: ALDevice,
    thread_local: bool,
}

impl ALContext {
    /// The native handle this context stands for.
    pub closed spec fn raw_id(self) -> u64 {
        self.handle
    }

    /// The device this context was created from.
    pub closed spec fn spec_device(self) -> ALDevice {
        self.device
    }

    /// Whether the context is current for one thread only, rather than
    /// globally.
    pub closed spec fn is_thread_local(self) -> bool {
        self.thread_local
    }

    /// Wrap the handle an `alcCreateContext` call returned for `device`.
    /// The native call reports failure with a null pointer, so a real
    /// context is never zero. A fresh context is not yet bound to a thread.
    pub fn create_from_device(handle: u64, device: ALDevice) -> (r: ALContext)
        requires
            handle != 0,
        ensures
            r.raw_id() == handle,
            r.spec_device() == device,
            !r.is_thread_local(),
    {
        ALContext { handle, device, thread_local: false }
    }

    /// The raw handle, for handing to native calls.
    pub fn raw(&self) -> (r: u64)
        ensures
            r == self.raw_id(),
    {
        self.handle
    }

    /// The device this context belongs to.
    pub fn device(&self) -> (r: ALDevice)
        ensures
            r == self.spec_device(),
    {
        self.device
    }

    /// Record that the context was made globally current
    /// (`alcMakeContextCurrent`).
    pub fn make_current(&mut self)
        ensures
            final(self).raw_id() == old(self).raw_id(),
            final(self).spec_device() == old(self).spec_device(),
            !final(self).is_thread_local(),
    {
        self.thread_local = false;
    }

    /// Record that the context was made current for the calling thread only
    /// (`alcSetThreadContext`).
    pub fn set_thread_context(&mut self)
        ensures
            final(self).raw_id() == old(self).raw_id(),
            final(self).spec_device() == old(self).spec_device(),
            final(self).is_thread_local(),
    {
        self.thread_local = true;
    }

    /// Which binding teardown must clear before destroying the context:
    /// the context stops being used the same way it was put to use.
    pub fn release_action(&self) -> (r: ALContextRelease)
        ensures
            r == if self.is_thread_local() {
                ALContextRelease::ClearThreadContext
            } else {
                ALContextRelease::ClearCurrentContext
            },
    {
        if self.thread_local {
            ALContextRelease::ClearThreadContext
        } else {
            ALContextRelease::ClearCurrentContext
        }
    }
}

} // verus!
