//! Playback sources and their buffer queue.
//!
//! A source plays a queue of buffers. The native engine keeps its own copy
//! of the queue; the wrapper mirrors it as the list of queued buffer
//! handles so the library can hand buffers back out in order. Starting and
//! stopping playback are foreign calls made by the unverified shell; the
//! queue bookkeeping and the state translation live here.

use vstd::prelude::*;

use crate::error::{ALError, ALResult};
use crate::listener::ALListener;
use crate::ALObject;

verus! {

pub const AL_TRUE: i32 = 1;
pub const AL_FALSE: i32 = 0;
/// `alSourcei` / `alGetSourcei` parameters.
pub const AL_SOURCE_RELATIVE: i32 = 0x202;
pub const AL_PITCH: i32 = 0x1003;
pub const AL_LOOPING: i32 = 0x1007;
pub const AL_BUFFER: i32 = 0x1009;
pub const AL_SOURCE_STATE: i32 = 0x1010;
/// Values reported for `AL_SOURCE_STATE`.
pub const AL_INITIAL: i32 = 0x1011;
pub const AL_PLAYING: i32 = 0x1012;
pub const AL_PAUSED: i32 = 0x1013;
pub const AL_STOPPED: i32 = 0x1014;
pub const AL_BUFFERS_QUEUED: i32 = 0x1015;
pub const AL_BUFFERS_PROCESSED: i32 = 0x1016;
pub const AL_SOURCE_TYPE: i32 = 0x1027;
/// Values reported for `AL_SOURCE_TYPE`.
pub const AL_STATIC: i32 = 0x1028;
pub const AL_STREAMING: i32 = 0x1029;
pub const AL_UNDETERMINED: i32 = 0x1030;

/// The playback state a source is in.
#[derive(Debug, Copy, Clone, Eq, PartialEq, Structural)]
pub enum ALSourceState {
    Initial,
    Paused,
    Playing,
    Stopped,
}

impl ALSourceState {
    /// The state a reported `AL_SOURCE_STATE` value names, `InvalidValue`
    /// for any value that names none.
    pub open spec fn spec_from_alenum(state: i32) -> ALResult<ALSourceState> {
        if state == AL_INITIAL {
            Ok(ALSourceState::Initial)
        } else if state == AL_PAUSED {
            Ok(ALSourceState::Paused)
        } else if state == AL_PLAYING {
            Ok(ALSourceState::Playing)
        } else if state == AL_STOPPED {
            Ok(ALSourceState::Stopped)
        } else {
            Err(ALError::InvalidValue)
        }
    }

    /// The value naming this state.
    pub open spec fn spec_to_alenum(self) -> i32 {
        match self {
            ALSourceState::Initial => AL_INITIAL,
            ALSourceState::Paused => AL_PAUSED,
            ALSourceState::Playing => AL_PLAYING,
            ALSourceState::Stopped => AL_STOPPED,
        }
    }

    pub fn from_alenum(state: i32) -> (r: ALResult<ALSourceState>)
        ensures
            r == Self::spec_from_alenum(state),
    {
        if state == AL_INITIAL {
            Ok(ALSourceState::Initial)
        } else if state == AL_PAUSED {
            Ok(ALSourceState::Paused)
        } else if state == AL_PLAYING {
            Ok(ALSourceState::Playing)
        } else if state == AL_STOPPED {
            Ok(ALSourceState::Stopped)
        } else {
            Err(ALError::InvalidValue)
        }
    }

    pub fn to_alenum(&self) -> (r: i32)
        ensures
            r == self.spec_to_alenum(),
    {
        match *self {
            ALSourceState::Initial => AL_INITIAL,
            ALSourceState::Paused => AL_PAUSED,
            ALSourceState::Playing => AL_PLAYING,
            ALSourceState::Stopped => AL_STOPPED,
        }
    }

    /// Whether a source in this state is playing.
    pub fn is_playing(&self) -> (r: bool)
        ensures
            r == (*self == ALSourceState::Playing),
    {
        *self == ALSourceState::Playing
    }
}

/// Translating a state to its enumeration value and back yields the state
/// again.
pub proof fn lemma_source_state_roundtrip(s: ALSourceState)
    ensures
        ALSourceState::spec_from_alenum(s.spec_to_alenum()) == Ok::<ALSourceState, ALError>(s),
{
}

/// What kind of playback a source is set up for: `Static` after a single
/// buffer was attached, `Streaming` after buffers were queued,
/// `Undetermined` while neither has happened.
#[derive(Debug, Copy, Clone, Eq, PartialEq, Structural)]
pub enum ALSourceKind {
    Undetermined,
    Static,
    Streaming,
}

impl ALSourceKind {
    /// The kind a reported `AL_SOURCE_TYPE` value names, `InvalidValue` for
    /// any value that names none.
    pub open spec fn spec_from_alenum(kind: i32) -> ALResult<ALSourceKind> {
        if kind == AL_UNDETERMINED {
            Ok(ALSourceKind::Undetermined)
        } else if kind == AL_STATIC {
            Ok(ALSourceKind::Static)
        } else if kind == AL_STREAMING {
            Ok(ALSourceKind::Streaming)
        } else {
            Err(ALError::InvalidValue)
        }
    }

    pub fn from_alenum(kind: i32) -> (r: ALResult<ALSourceKind>)
        ensures
            r == Self::spec_from_alenum(kind),
    {
        if kind == AL_UNDETERMINED {
            Ok(ALSourceKind::Undetermined)
        } else if kind == AL_STATIC {
            Ok(ALSourceKind::Static)
        } else if kind == AL_STREAMING {
            Ok(ALSourceKind::Streaming)
        } else {
            Err(ALError::InvalidValue)
        }
    }
}

/// A playback unit of a listener's context, mirroring the queue of buffer
/// handles the native engine holds for it.
#[derive(Debug, Clone)]
pub struct ALSource {
    handle: u32,
    listener: ALListener,
    queue: Vec<u32>,
    looping: bool,
    relative: bool,
}

impl ALSource {
    /// The listener whose context this source plays in.
    pub closed spec fn spec_listener(self) -> ALListener {
        self.listener
    }

    /// The queued buffer handles, oldest first.
    pub closed spec fn spec_queue(self) -> Seq<u32> {
        self.queue@
    }

    /// Whether the source restarts its queue when it runs out.
    pub closed spec fn spec_looping(self) -> bool {
        self.looping
    }

    /// Whether the source's position is relative to the listener.
    pub closed spec fn spec_relative(self) -> bool {
        self.relative
    }

    /// All bookkeeping other than the queue: what queue operations leave
    /// untouched.
    pub open spec fn same_except_queue(self, other: ALSource) -> bool {
        self.raw_id() == other.raw_id() && self.spec_listener() == other.spec_listener()
            && self.spec_looping() == other.spec_looping() && self.spec_relative()
            == other.spec_relative()
    }

    /// Wrap the handle an `alGenSources` call returned for a source of
    /// `listener`'s context. Generated handles are never zero. A fresh
    /// source has an empty queue, does not loop, and positions absolutely.
    pub fn new(handle: u32, listener: ALListener) -> (r: ALSource)
        requires
            handle != 0,
        ensures
            r.raw_id() == handle,
            r.spec_listener() == listener,
            r.spec_queue() == Seq::<u32>::empty(),
            !r.spec_looping(),
            !r.spec_relative(),
    {
        let source = ALSource { handle, listener, queue: Vec::new(), looping: false, relative: false };
        proof {
            assert(source.spec_queue() =~= Seq::<u32>::empty());
        }
        source
    }

    /// The listener this source belongs to.
    pub fn listener(&self) -> (r: ALListener)
        ensures
            r == self.spec_listener(),
    {
        self.listener
    }

    /// Add buffers to the streaming queue, in order.
    pub fn queue_buffers(&mut self, buffers: &Vec<u32>) -> (r: ALResult<()>)
        ensures
            old(self).raw_id() == 0 ==> r == Err::<(), ALError>(ALError::InvalidValue) && *final(self) == *old(self),
            old(self).raw_id() != 0 ==> (r is Ok && final(self).spec_queue() == old(self).spec_queue() + buffers@ && final(self).same_except_queue(*old(self))),
    {
        match self.check() {
            Err(e) => Err(e),
            Ok(_) => {
                let mut i: usize = 0;
                while i < buffers.len()
                    invariant
                        0 <= i <= buffers.len(),
                        self.spec_queue() == old(self).spec_queue() + buffers@.take(i as int),
                        self.same_except_queue(*old(self)),
                    decreases buffers.len() - i,
                {
                    self.queue.push(buffers[i]);
                    proof {
                        assert(self.spec_queue() =~= old(self).spec_queue() + buffers@.take(
                            i + 1 as int,
                        ));
                    }
                    i += 1;
                }
                proof {
                    assert(buffers@.take(buffers@.len() as int) =~= buffers@);
                }
                Ok(())
            },
        }
    }

    /// Remove the first (oldest) occurrence of `buffer` from the queue.
    /// `Ok(true)` when it was queued and is now removed, `Ok(false)` when it
    /// was not queued.
    pub fn unqueue_buffer(&mut self, buffer: u32) -> (r: ALResult<bool>)
        ensures
            old(self).raw_id() == 0 ==> r == Err::<bool, ALError>(ALError::InvalidValue) && *final(self) == *old(self),
            old(self).raw_id() != 0 ==> r == Ok::<bool, ALError>(old(self).spec_queue().contains(
                buffer,
            )),
            old(self).raw_id() != 0 ==> final(self).same_except_queue(*old(self)) && match old(self).spec_queue().index_of_first(buffer) {
                Some(idx) => r == Ok::<bool, ALError>(true) && final(self).spec_queue() == old(self).spec_queue().remove(idx),
                None => r == Ok::<bool, ALError>(false) && final(self).spec_queue() == old(self).spec_queue(),
            },
    {
        match self.check() {
            Err(e) => Err(e),
            Ok(_) => {
                let mut i: usize = 0;
                while i < self.queue.len()
                    invariant
                        0 <= i <= self.queue.len(),
                        *self == *old(self),
                        old(self).raw_id() != 0,
                        forall|j: int| 0 <= j < i ==> self.queue@[j] != buffer,
                    decreases self.queue.len() - i,
                {
                    if self.queue[i] == buffer {
                        proof {
                            let q = old(self).spec_queue();
                            assert(q[i as int] == buffer);
                            assert(q.contains(buffer));
                            q.index_of_first_ensures(buffer);
                            let idx = q.index_of_first(buffer)->Some_0;
                            if idx < i as int {
                                assert(q[idx] != buffer);
                            }
                            if idx > i as int {
                                assert(q[i as int] != buffer);
                            }
                            assert(q.index_of_first(buffer) == Some(i as int));
                        }
                        self.queue.remove(i);
                        return Ok(true);
                    }
                    i += 1;
                }
                proof {
                    let q = old(self).spec_queue();
                    assert(!q.contains(buffer)) by {
                        assert(forall|j: int| 0 <= j < q.len() ==> q[j] != buffer);
                    }
                    q.index_of_first_ensures(buffer);
                }
                Ok(false)
            },
        }
    }

    /// Remove every queued buffer, handing the queue back in order.
    pub fn unqueue_all_buffers(&mut self) -> (r: ALResult<Vec<u32>>)
        ensures
            old(self).raw_id() == 0 ==> r == Err::<Vec<u32>, ALError>(ALError::InvalidValue)
                && *final(self) == *old(self),
            old(self).raw_id() != 0 ==> (r matches Ok(v) && v@ == old(self).spec_queue() && final(self).spec_queue() == Seq::<u32>::empty() && final(self).same_except_queue(*old(self))),
    {
        match self.check() {
            Err(e) => Err(e),
            Ok(_) => {
                let mut drained: Vec<u32> = Vec::new();
                core::mem::swap(&mut drained, &mut self.queue);
                proof {
                    assert(final(self).spec_queue() =~= Seq::<u32>::empty());
                }
                Ok(drained)
            },
        }
    }

    /// The buffer handles currently queued, oldest first.
    pub fn buffers(&self) -> (r: Vec<u32>)
        ensures
            r@ == self.spec_queue(),
    {
        let r = self.queue.clone();
        proof {
            assert(r@ =~= self.spec_queue());
        }
        r
    }

    /// How many buffers the wrapper has queued. The count the native engine
    /// maintains is queried separately and may differ while it still plays
    /// buffers that were unqueued.
    pub fn queue_len(&self) -> (r: usize)
        ensures
            r == self.spec_queue().len(),
    {
        self.queue.len()
    }

    /// Record whether the source restarts its queue when it runs out, and
    /// compute the value `alSourcei` must be called with for `AL_LOOPING`.
    pub fn set_looping(&mut self, looping: bool) -> (r: i32)
        ensures
            final(self).spec_looping() == looping,
            final(self).raw_id() == old(self).raw_id(),
            final(self).spec_listener() == old(self).spec_listener(),
            final(self).spec_queue() == old(self).spec_queue(),
            final(self).spec_relative() == old(self).spec_relative(),
            r == if looping {
                AL_TRUE
            } else {
                AL_FALSE
            },
    {
        self.looping = looping;
        if looping {
            AL_TRUE
        } else {
            AL_FALSE
        }
    }

    /// Whether the source was set to loop.
    pub fn looping(&self) -> (r: bool)
        ensures
            r == self.spec_looping(),
    {
        self.looping
    }

    /// Whether the source positions relative to the listener.
    pub fn relative(&self) -> (r: bool)
        ensures
            r == self.spec_relative(),
    {
        self.relative
    }

    /// Record whether the source's position is relative to the listener,
    /// and compute the value `alSourcei` must be called with for
    /// `AL_SOURCE_RELATIVE`.
    pub(crate) fn set_relative(&mut self, relative: bool) -> (r: i32)
        ensures
            final(self).spec_relative() == relative,
            final(self).raw_id() == old(self).raw_id(),
            final(self).spec_listener() == old(self).spec_listener(),
            final(self).spec_queue() == old(self).spec_queue(),
            final(self).spec_looping() == old(self).spec_looping(),
            r == if relative {
                AL_TRUE
            } else {
                AL_FALSE
            },
    {
        self.relative = relative;
        if relative {
            AL_TRUE
        } else {
            AL_FALSE
        }
    }
}

impl ALObject for ALSource {
    closed spec fn raw_id(&self) -> u32 {
        self.handle
    }

    fn raw(&self) -> u32 {
        self.handle
    }

    fn into_raw(self) -> u32 {
        self.handle
    }

    fn is_valid(&self) -> bool {
        self.handle != 0
    }

    fn check(&self) -> ALResult<()> {
        if self.handle != 0 {
            Ok(())
        } else {
            Err(ALError::InvalidValue)
        }
    }
}

} // verus!
