//! Sample buffers: blocks of uploaded sample data.
//!
//! A buffer owns a native handle and remembers what was last uploaded into
//! it. The upload itself — handing the sample bytes to `alBufferData` — is a
//! foreign call made by the unverified shell; deciding whether an upload is
//! acceptable, which format value it must use, and what the buffer then
//! holds is done here.

use vstd::prelude::*;

use crate::error::{ALError, ALResult};
use crate::format::ALFormat;
use crate::ALObject;

verus! {

/// `alGetBufferi` parameters describing an uploaded buffer.
pub const AL_FREQUENCY: i32 = 0x2001;
pub const AL_BITS: i32 = 0x2002;
pub const AL_CHANNELS: i32 = 0x2003;
pub const AL_SIZE: i32 = 0x2004;

/// A block of sample data uploaded to the native engine. Until the first
/// upload the buffer holds nothing: no format and zero bytes.
#[derive(Debug, Clone, Copy)]
pub struct ALBuffer {
    handle: u32,
    format: Option<ALFormat>,
    size: usize,
}

impl ALBuffer {
    /// The format of the data last uploaded, if any was.
    pub closed spec fn spec_format(self) -> Option<ALFormat> {
        self.format
    }

    /// The number of bytes last uploaded.
    pub closed spec fn spec_size(self) -> usize {
        self.size
    }

    /// Wrap the handle an `alGenBuffers` call returned. Generated handles
    /// are never zero. A fresh buffer holds no data.
    pub fn new(handle: u32) -> (r: ALBuffer)
        requires
            handle != 0,
        ensures
            r.raw_id() == handle,
            r.spec_format() is None,
            r.spec_size() == 0,
    {
        ALBuffer { handle, format: None, size: 0 }
    }

    /// Returns the last number of bytes buffered.
    pub fn num_bytes(&self) -> (r: usize)
        ensures
            r == self.spec_size(),
    {
        self.size
    }

    /// Returns the last number of elements of `elem_size` bytes buffered.
    ///
    /// The buffer only stores the number of bytes uploaded; it is up to the
    /// caller to know the element type the bytes were produced from.
    pub fn num_elements(&self, elem_size: usize) -> (r: usize)
        requires
            elem_size > 0,
        ensures
            r == self.spec_size() / elem_size,
    {
        self.size / elem_size
    }

    /// The format of the data last uploaded, if any was.
    pub fn format(&self) -> (r: Option<ALFormat>)
        ensures
            r == self.spec_format(),
    {
        self.format
    }

    /// Account for an upload of `size` bytes in `format` and compute the
    /// value `alBufferData` must be called with. Empty uploads are invalid;
    /// formats outside the six basic ones cannot be uploaded this way. On
    /// success the buffer records the new contents.
    pub fn buffer_raw(&mut self, size: usize, format: ALFormat) -> (r: ALResult<i32>)
        ensures
            size == 0 ==> r == Err::<i32, ALError>(ALError::InvalidValue)
                && *final(self) == *old(self),
            size != 0 && old(self).raw_id() == 0 ==> r == Err::<i32, ALError>(ALError::InvalidValue)
                && *final(self) == *old(self),
            size != 0 && old(self).raw_id() != 0 && format.spec_basic_format() is Err
                ==> r == Err::<i32, ALError>(ALError::Unsupported) && *final(self) == *old(self),
            size != 0 && old(self).raw_id() != 0 && format.spec_basic_format() is Ok
                ==> (r == format.spec_basic_format()
                    && final(self).raw_id() == old(self).raw_id()
                    && final(self).spec_format() == Some(format)
                    && final(self).spec_size() == size),
    {
        if size == 0 {
            return Err(ALError::InvalidValue);
        }
        match self.check() {
            Err(e) => Err(e),
            Ok(_) => {
                match format.basic_format() {
                    Err(e) => Err(e),
                    Ok(al_format) => {
                        self.format = Some(format);
                        self.size = size;
                        Ok(al_format)
                    },
                }
            },
        }
    }
}

impl ALObject for ALBuffer {
    closed spec fn raw_id(&self) -> u32 {
        self.handle
    }

    fn raw(&self) -> u32 {
        self.handle
    }

    fn into_raw(self) -> u32 {
        self.handle
    }

    fn is_valid(&self) -> bool {
        self.handle != 0
    }

    fn check(&self) -> ALResult<()> {
        if self.handle != 0 {
            Ok(())
        } else {
            Err(ALError::InvalidValue)
        }
    }
}

} // verus!
