//! Byte sources: the suppliers of request and response body bytes. A source
//! is pulled repeatedly; each pull yields some bytes, the end of the input,
//! or a failure. The engine-backed response source and any caller-supplied
//! streaming body implement [`ByteSource`]; [`SyncReader`] is the source for
//! a body already held in memory.

use vstd::prelude::*;

verus! {

/// Why reading from a byte source failed.
#[derive(Clone, Copy, Debug, PartialEq, Eq, Structural)]
pub enum ReadError {
    /// The engine reported a network-level failure while producing bytes.
    Engine,
    /// The engine gave up waiting for more bytes.
    TimedOut,
    /// The source itself failed to produce bytes.
    Source,
}

/// What one pull of a byte source yields.
pub enum SourceEvent {
    /// More bytes. A source reporting no bytes this way is treated as ended.
    Data(Vec<u8>),
    /// The input is exhausted; the source must not be pulled again.
    End,
    /// The source failed; the source must not be pulled again.
    Failed(ReadError),
}

/// A supplier of body bytes, pulled one event at a time. Implementations may
/// block the pulling thread while they wait for bytes to arrive.
pub trait ByteSource: Send {
    /// Produces the next event of the source.
    fn pull(&mut self) -> SourceEvent;
}

/// A byte source over bytes already in memory: yields them as one event,
/// then reports the end of the input. The whole input is handed out on the
/// first pull, as a body held in memory needs no further waiting.
pub struct SyncReader {
    data: Vec<u8>,
    drained: bool,
}

impl SyncReader {
    /// The bytes this reader has not yet handed out.
    pub closed spec fn remaining(self) -> Seq<u8> {
        self.data@
    }

    /// Whether the reader has already reported data or the end of its input.
    pub closed spec fn exhausted(self) -> bool {
        self.drained
    }

    /// A reader over the given bytes.
    pub fn new(data: Vec<u8>) -> (r: SyncReader)
        ensures
            r.remaining() == data@,
            !r.exhausted(),
    {
        SyncReader { data, drained: false }
    }

    /// One pull: all remaining bytes at once, the end of the input when none
    /// remain, and nothing ever again afterwards.
    pub fn take_all(&mut self) -> (e: SourceEvent)
        ensures
            final(self).exhausted(),
            old(self).exhausted() ==> e is End && *final(self) == *old(self),
            !old(self).exhausted() ==> final(self).remaining().len() == 0,
            !old(self).exhausted() && old(self).remaining().len() == 0 ==> e is End,
            !old(self).exhausted() && old(self).remaining().len() > 0 ==> (e matches
                SourceEvent::Data(d) && d@ == old(self).remaining()),
    {
        if self.drained {
            return SourceEvent::End;
        }
        self.drained = true;
        if self.data.len() == 0 {
            return SourceEvent::End;
        }
        let out = self.data.split_off(0);
        SourceEvent::Data(out)
    }
}

impl ByteSource for SyncReader {
    fn pull(&mut self) -> SourceEvent {
        self.take_all()
    }
}

} // verus!
