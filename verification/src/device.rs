//! The opened audio device and the pure logic behind its queries.
//!
//! A device is an opaque native handle. Opening, closing and querying it are
//! foreign calls made by the unverified shell; what stands here is everything
//! that can be decided from plain values: which name strings are acceptable,
//! which parameter a query must use, and how the NUL-separated string lists
//! of the enumeration extension decompose into individual names.

use vstd::prelude::*;

use crate::error::{ALError, ALResult};

verus! {

pub const ALC_MAJOR_VERSION: i32 = 0x1000;
pub const ALC_MINOR_VERSION: i32 = 0x1001;
pub const ALC_ATTRIBUTES_SIZE: i32 = 0x1002;
pub const ALC_ALL_ATTRIBUTES: i32 = 0x1003;
pub const ALC_DEFAULT_DEVICE_SPECIFIER: i32 = 0x1004;
pub const ALC_DEVICE_SPECIFIER: i32 = 0x1005;
pub const ALC_EXTENSIONS: i32 = 0x1006;
pub const ALC_CAPTURE_DEVICE_SPECIFIER: i32 = 0x310;
pub const ALC_CAPTURE_DEFAULT_DEVICE_SPECIFIER: i32 = 0x311;
/// `ALC_ENUMERATE_ALL_EXT` parameters.
pub const ALC_DEFAULT_ALL_DEVICES_SPECIFIER: i32 = 0x1012;
pub const ALC_ALL_DEVICES_SPECIFIER: i32 = 0x1013;

/// An opened audio output device. The handle is the native pointer, kept as
/// an opaque identifier; zero stands for the null device, which is useful
/// for querying system capabilities before opening a real device.
#[derive(Debug, Clone, Copy, PartialEq, Eq, Structural)]
pub struct ALDevice {
    handle: u64,
}

impl ALDevice {
    /// The native handle this device stands for.
    pub closed spec fn raw_id(self) -> u64 {
        self.handle
    }

    /// The null device: no native handle, usable only for global queries.
    pub fn null() -> (r: ALDevice)
        ensures
            r.raw_id() == 0,
    {
        ALDevice { handle: 0 }
    }

    /// Wrap the handle an `alcOpenDevice` call returned. The native call
    /// reports failure with a null pointer, so a real device is never zero.
    pub fn from_raw(handle: u64) -> (r: ALDevice)
        requires
            handle != 0,
        ensures
            r.raw_id() == handle,
    {
        ALDevice { handle }
    }

    /// The raw handle, for handing to native calls.
    pub fn raw(&self) -> (r: u64)
        ensures
            r == self.raw_id(),
    {
        self.handle
    }

    /// Whether this is the null device.
    pub fn is_null(&self) -> (r: bool)
        ensures
            r == (self.raw_id() == 0),
    {
        self.handle == 0
    }

    /// Which string parameter yields the device's name: with the
    /// `ALC_ENUMERATE_ALL_EXT` extension present the full name list is
    /// available, otherwise only the basic one.
    pub fn name_query_param(enumerate_all: bool) -> (r: i32)
        ensures
            r == if enumerate_all {
                ALC_ALL_DEVICES_SPECIFIER
            } else {
                ALC_DEVICE_SPECIFIER
            },
    {
        if enumerate_all {
            ALC_ALL_DEVICES_SPECIFIER
        } else {
            ALC_DEVICE_SPECIFIER
        }
    }

    /// Whether a string parameter yields a NUL-separated list of strings
    /// rather than a single string.
    pub fn is_multistring_param(param: i32) -> (r: bool)
        ensures
            r == (param == ALC_ALL_DEVICES_SPECIFIER || param == ALC_DEVICE_SPECIFIER || param
                == ALC_CAPTURE_DEVICE_SPECIFIER),
    {
        param == ALC_ALL_DEVICES_SPECIFIER || param == ALC_DEVICE_SPECIFIER || param
            == ALC_CAPTURE_DEVICE_SPECIFIER
    }
}

/// A device name is handed to the native library as a C string, so it can
/// hold any bytes except an interior NUL. `Ok` exactly on acceptable names.
pub fn check_device_name(name: &Vec<u8>) -> (r: ALResult<()>)
    ensures
        r is Ok <==> !name@.contains(0u8),
        r is Err ==> r == Err::<(), ALError>(ALError::NulError),
{
    let mut i: usize = 0;
    while i < name.len()
        invariant
            0 <= i <= name.len(),
            forall|j: int| 0 <= j < i ==> name@[j] != 0u8,
        decreases name.len() - i,
    {
        if name[i] == 0 {
            return Err(ALError::NulError);
        }
        i += 1;
    }
    Ok(())
}

/// The position of the first NUL byte in `s`, or `s.len()` when `s` has
/// none.
pub open spec fn first_nul(s: Seq<u8>) -> int
    decreases s.len(),
{
    if s.len() == 0 {
        0
    } else if s[0] == 0 {
        0
    } else {
        1 + first_nul(s.drop_first())
    }
}

pub proof fn lemma_first_nul_bounds(s: Seq<u8>)
    ensures
        0 <= first_nul(s) <= s.len(),
        forall|j: int| 0 <= j < first_nul(s) ==> s[j] != 0u8,
        first_nul(s) < s.len() ==> s[first_nul(s)] == 0u8,
    decreases s.len(),
{
    if s.len() != 0 && s[0] != 0 {
        lemma_first_nul_bounds(s.drop_first());
        assert forall|j: int| 0 <= j < first_nul(s) implies s[j] != 0u8 by {
            if j > 0 {
                assert(s[j] == s.drop_first()[j - 1]);
            }
        }
    }
}

/// `first_nul` is pinned down by its characteristic facts: `n` bytes of
/// non-NUL prefix followed by a NUL or the end of the sequence.
pub proof fn lemma_first_nul_characterized(s: Seq<u8>, n: int)
    requires
        0 <= n <= s.len(),
        forall|j: int| 0 <= j < n ==> s[j] != 0u8,
        n < s.len() ==> s[n] == 0u8,
    ensures
        first_nul(s) == n,
    decreases s.len(),
{
    if s.len() != 0 && s[0] != 0 {
        lemma_first_nul_characterized(s.drop_first(), n - 1);
    }
}

/// The list of strings a NUL-separated buffer holds: each chunk runs up to
/// the next NUL byte, and the list ends at the empty string marked by a
/// NUL in first position (or at the end of the buffer).
pub open spec fn nul_chunks(s: Seq<u8>) -> Seq<Seq<u8>>
    decreases s.len(),
    via nul_chunks_decreases
{
    if s.len() == 0 || s[0] == 0 {
        Seq::empty()
    } else {
        let end = first_nul(s);
        let rest = if end < s.len() {
            s.subrange(end + 1, s.len() as int)
        } else {
            Seq::empty()
        };
        seq![s.subrange(0, end)] + nul_chunks(rest)
    }
}

#[via_fn]
proof fn nul_chunks_decreases(s: Seq<u8>) {
    lemma_first_nul_bounds(s);
}

/// Split a NUL-separated string list into its strings, as the enumeration
/// extension's multi-string queries report them: names follow one another,
/// each terminated by a NUL, and an empty name ends the list.
pub fn split_nul_strings(data: &Vec<u8>) -> (r: Vec<Vec<u8>>)
    ensures
        r.deep_view() == nul_chunks(data@),
{
    let len = data.len();
    let mut out: Vec<Vec<u8>> = Vec::new();
    let mut i: usize = 0;
    proof {
        assert(data@.skip(0) =~= data@);
        assert(out.deep_view() =~= Seq::<Seq<u8>>::empty());
        assert(out.deep_view() + nul_chunks(data@) =~= nul_chunks(data@));
    }
    while i < len && data[i] != 0
        invariant
            len == data.len(),
            0 <= i <= len,
            out.deep_view() + nul_chunks(data@.skip(i as int)) == nul_chunks(data@),
        decreases len - i,
    {
        let ghost s = data@.skip(i as int);
        let start = i;
        let mut j = i;
        let mut chunk: Vec<u8> = Vec::new();
        proof {
            assert(chunk@ =~= data@.subrange(start as int, start as int));
        }
        while j < len && data[j] != 0
            invariant
                len == data.len(),
                start <= j <= len,
                start < len,
                chunk@ == data@.subrange(start as int, j as int),
                forall|k: int| start <= k < j ==> data@[k] != 0u8,
            decreases len - j,
        {
            chunk.push(data[j]);
            proof {
                assert(chunk@ =~= data@.subrange(start as int, j + 1 as int));
            }
            j += 1;
        }
        let ghost prev = out.deep_view();
        out.push(chunk);
        proof {
            // Relative to the tail that begins at `start`, the scan stopped
            // at the chunk's terminating NUL (or at the end of the buffer).
            assert forall|k: int| 0 <= k < j - start implies s[k] != 0u8 by {
                assert(s[k] == data@[start + k]);
            }
            if j < len {
                assert(s[j - start] == data@[j as int]);
            }
            lemma_first_nul_characterized(s, j - start);
            assert(s.subrange(0, j - start) =~= chunk@);
            assert(s.len() > 0 && s[0] != 0u8) by {
                assert(s[0] == data@[i as int]);
            }
            let rest = if j < len {
                data@.skip(j + 1)
            } else {
                Seq::<u8>::empty()
            };
            if j < len {
                assert(s.subrange(j - start + 1, s.len() as int) =~= data@.skip(j + 1));
            }
            // One unfolding of the decomposition at this chunk.
            assert(nul_chunks(s) == seq![chunk@] + nul_chunks(rest));
            assert(out.deep_view() =~= prev.push(chunk.deep_view()));
            assert(chunk.deep_view() =~= chunk@);
            assert(out.deep_view() + nul_chunks(rest) =~= prev + nul_chunks(s));
            if j >= len {
                assert(data@.skip(len as int) =~= Seq::<u8>::empty());
            }
        }
        i = if j < len {
            j + 1
        } else {
            j
        };
    }
    proof {
        let s = data@.skip(i as int);
        if i < len {
            assert(s[0] == data@[i as int]);
        } else {
            assert(s =~= Seq::<u8>::empty());
        }
        assert(nul_chunks(s) =~= Seq::<Seq<u8>>::empty());
        assert(out.deep_view() + nul_chunks(s) =~= out.deep_view());
    }
    out
}

/// Every string the decomposition yields is non-empty and NUL-free: the
/// separators never leak into the names, and the empty terminator never
/// becomes a name.
pub proof fn lemma_nul_chunks_wellformed(s: Seq<u8>)
    ensures
        forall|i: int|
            0 <= i < nul_chunks(s).len() ==> #[trigger] nul_chunks(s)[i].len() > 0 && !nul_chunks(
                s,
            )[i].contains(0u8),
    decreases s.len(),
{
    if s.len() == 0 || s[0] == 0 {
    } else {
        lemma_first_nul_bounds(s);
        let end = first_nul(s);
        let head = s.subrange(0, end);
        let rest = if end < s.len() {
            s.subrange(end + 1, s.len() as int)
        } else {
            Seq::<u8>::empty()
        };
        assert(!head.contains(0u8)) by {
            assert(forall|j: int| 0 <= j < head.len() ==> head[j] == s[j] && s[j] != 0u8);
        }
        lemma_nul_chunks_wellformed(rest);
        assert(nul_chunks(s) == seq![head] + nul_chunks(rest));
        assert forall|i: int| 0 <= i < nul_chunks(s).len() implies #[trigger] nul_chunks(
            s,
        )[i].len() > 0 && !nul_chunks(s)[i].contains(0u8) by {
            if i == 0 {
                assert(nul_chunks(s)[0] == head);
            } else {
                assert(nul_chunks(s)[i] == nul_chunks(rest)[i - 1]);
            }
        }
    }
}

/// The NUL-separated encoding of a list of strings: each string followed by
/// a NUL terminator.
pub open spec fn join_nul(chunks: Seq<Seq<u8>>) -> Seq<u8>
    decreases chunks.len(),
{
    if chunks.len() == 0 {
        Seq::empty()
    } else {
        chunks[0] + seq![0u8] + join_nul(chunks.drop_first())
    }
}

/// Splitting the NUL-separated encoding of non-empty, NUL-free names gives
/// back exactly those names: the decomposition loses nothing.
pub proof fn lemma_nul_chunks_of_join(chunks: Seq<Seq<u8>>)
    requires
        forall|i: int|
            0 <= i < chunks.len() ==> #[trigger] chunks[i].len() > 0 && !chunks[i].contains(0u8),
    ensures
        nul_chunks(join_nul(chunks)) == chunks,
    decreases chunks.len(),
{
    if chunks.len() == 0 {
        assert(nul_chunks(join_nul(chunks)) =~= chunks);
    } else {
        let c = chunks[0];
        let rest = chunks.drop_first();
        let s = join_nul(chunks);
        assert(s == c + seq![0u8] + join_nul(rest));
        assert(forall|j: int| 0 <= j < c.len() ==> s[j] != 0u8) by {
            assert(forall|j: int| 0 <= j < c.len() ==> s[j] == c[j]);
        }
        assert(s[c.len() as int] == 0u8);
        lemma_first_nul_characterized(s, c.len() as int);
        assert(s.subrange(0, c.len() as int) =~= c);
        assert(s.subrange(c.len() as int + 1, s.len() as int) =~= join_nul(rest));
        lemma_nul_chunks_of_join(rest);
        assert(s.len() > 0 && s[0] != 0u8);
        assert(nul_chunks(s) =~= chunks);
    }
}

} // verus!
