//! A safe, verified model of an OpenAL-style audio object graph.
//!
//! The native audio engine is reached only through an unverified shell that
//! performs the actual foreign calls; everything here is the pure core that
//! shell drives: error-code translation, sample-format arithmetic, the
//! device / context / listener / source / buffer ownership graph, the source
//! buffer queue, and the bounds-checked effect parameter structures.

pub mod error;
pub mod format;
pub mod distance_model;
pub mod device;
pub mod context;
pub mod listener;
pub mod buffer;
pub mod source;
pub mod source_3d;
pub mod effect;
pub mod effects;

use vstd::prelude::*;

verus! {

/// Common behaviour of objects that own a raw handle generated by the native
/// library (buffers, sources, effects). A handle of zero is never handed out
/// by the native `alGen*` calls, so a zero handle marks an object whose
/// ownership was given away with [`ALObject::into_raw`].
pub trait ALObject: Sized {
    /// The raw handle the object currently owns; zero when disarmed.
    spec fn raw_id(&self) -> u32;

    /// The raw handle, for handing to native calls.
    fn raw(&self) -> (r: u32)
        ensures
            r == self.raw_id(),
    ;

    /// Give up ownership of the raw handle.
    fn into_raw(self) -> (r: u32)
        ensures
            r == self.raw_id(),
    ;

    /// Whether the object still owns a usable handle.
    fn is_valid(&self) -> (r: bool)
        ensures
            r == (self.raw_id() != 0),
    ;

    /// Guard used by every operation: `Ok` exactly on valid objects.
    fn check(&self) -> (r: crate::error::ALResult<()>)
        ensures
            r is Ok <==> self.raw_id() != 0,
            r is Err ==> r == Err::<(), crate::error::ALError>(
                crate::error::ALError::InvalidValue,
            ),
    ;
}

} // verus!
