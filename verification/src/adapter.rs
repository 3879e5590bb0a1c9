//! The byte-stream adapter: wraps one byte source and exposes it as a
//! finite, non-restartable sequence of byte chunks. Each pull either emits a
//! chunk of at most the target capacity, observes the end of the input and
//! becomes terminal-empty, or observes a failure and becomes terminal-error.
//! Once terminal it never again produces a chunk.

use vstd::prelude::*;

use crate::source::{ByteSource, ReadError, SourceEvent};

verus! {

/// The default target chunk capacity, in bytes.
pub const DEFAULT_CHUNK_CAPACITY: usize = 4096;

/// What one pull of the adapter yields.
pub enum Pulled {
    /// The next chunk of the stream: between one and `chunk_capacity` bytes.
    Chunk(Vec<u8>),
    /// The terminal signal: no chunk now, and none ever again.
    Done,
    /// The failure of the source, surfaced exactly once; every later pull
    /// yields the terminal signal.
    Failed(ReadError),
}

/// Wraps one byte source (owned by value: the adapter is the only reader)
/// and turns it into a pull-based sequence of byte chunks, reusing one
/// internal buffer between pulls.
pub struct ByteStreamAdapter {
    reader: Option<Box<dyn ByteSource>>,
    buf: Vec<u8>,
    capacity: usize,
    failed: bool,
    consumed: Ghost<Seq<u8>>,
    emitted: Ghost<Seq<u8>>,
}

impl ByteStreamAdapter {
    /// All bytes the adapter has accepted from its source so far.
    pub closed spec fn consumed(self) -> Seq<u8> {
        self.consumed@
    }

    /// All bytes the adapter has handed out in chunks so far, in order.
    pub closed spec fn emitted(self) -> Seq<u8> {
        self.emitted@
    }

    /// Bytes accepted from the source but not yet handed out.
    pub closed spec fn buffered(self) -> Seq<u8> {
        self.buf@
    }

    /// The target chunk capacity: no chunk is larger than this.
    pub closed spec fn spec_capacity(self) -> int {
        self.capacity as int
    }

    /// Whether the adapter still owns its source: not yet terminal.
    pub closed spec fn is_active(self) -> bool {
        self.reader is Some
    }

    /// Whether the adapter is terminal: the source is gone, and no pull will
    /// ever produce a chunk again.
    pub closed spec fn is_terminal(self) -> bool {
        self.reader is None
    }

    /// Whether the adapter became terminal by observing a source failure.
    pub closed spec fn terminal_failed(self) -> bool {
        self.failed
    }

    /// The adapter's invariant: what it hands out plus what it holds back is
    /// exactly what it took in; a terminal adapter holds nothing back; and a
    /// failure mark only ever stands on a terminal adapter.
    pub closed spec fn wf(self) -> bool {
        &&& self.emitted@ + self.buf@ == self.consumed@
        &&& self.capacity >= 1
        &&& self.reader is None ==> self.buf@.len() == 0
        &&& self.failed ==> self.reader is None
    }

    /// An adapter over `reader` with the default chunk capacity.
    pub fn new(reader: Box<dyn ByteSource>) -> (r: ByteStreamAdapter)
        ensures
            r.wf(),
            r.is_active(),
            r.consumed() == Seq::<u8>::empty(),
            r.emitted() == Seq::<u8>::empty(),
            r.spec_capacity() == DEFAULT_CHUNK_CAPACITY,
    {
        Self::with_capacity(reader, DEFAULT_CHUNK_CAPACITY)
    }

    /// An adapter over `reader` emitting chunks of at most `capacity` bytes.
    pub fn with_capacity(reader: Box<dyn ByteSource>, capacity: usize) -> (r: ByteStreamAdapter)
        requires
            capacity >= 1,
        ensures
            r.wf(),
            r.is_active(),
            r.consumed() == Seq::<u8>::empty(),
            r.emitted() == Seq::<u8>::empty(),
            r.spec_capacity() == capacity,
    {
        ByteStreamAdapter {
            reader: Some(reader),
            buf: Vec::new(),
            capacity,
            failed: false,
            consumed: Ghost(Seq::empty()),
            emitted: Ghost(Seq::empty()),
        }
    }

    /// Hands out the next chunk of buffered bytes: at most `capacity` of
    /// them, in order, reusing the buffer for what is left over.
    fn emit(&mut self) -> (r: Vec<u8>)
        requires
            old(self).wf(),
            old(self).buffered().len() > 0,
        ensures
            final(self).wf(),
            r@.len() > 0,
            r@.len() == (if old(self).buffered().len() <= old(self).spec_capacity() {
                old(self).buffered().len() as int
            } else {
                old(self).spec_capacity()
            }),
            r@ == old(self).buffered().take(r@.len() as int),
            final(self).buffered() == old(self).buffered().skip(r@.len() as int),
            final(self).emitted() == old(self).emitted() + r@,
            final(self).consumed() == old(self).consumed(),
            final(self).is_active() == old(self).is_active(),
            final(self).terminal_failed() == old(self).terminal_failed(),
            final(self).spec_capacity() == old(self).spec_capacity(),
    {
        let k = if self.buf.len() <= self.capacity {
            self.buf.len()
        } else {
            self.capacity
        };
        let tail = self.buf.split_off(k);
        let mut chunk = tail;
        core::mem::swap(&mut chunk, &mut self.buf);
        proof {
            self.emitted@ = self.emitted@ + chunk@;
            assert(final(self).emitted() + final(self).buffered() =~= final(self).consumed());
        }
        chunk
    }

    /// One pull of the adapter. A terminal adapter yields the terminal
    /// signal and stays exactly as it is. An active adapter first drains
    /// bytes it holds back; only with nothing held back does it pull its
    /// source once: bytes become a chunk, the end of the input makes the
    /// adapter terminal-empty, and a failure is surfaced once and makes it
    /// terminal-error.
    pub fn next(&mut self) -> (r: Pulled)
        requires
            old(self).wf(),
        ensures
            final(self).wf(),
            final(self).spec_capacity() == old(self).spec_capacity(),
            old(self).emitted().is_prefix_of(final(self).emitted()),
            old(self).consumed().is_prefix_of(final(self).consumed()),
            old(self).is_terminal() ==> {
                &&& r is Done
                &&& final(self).is_terminal()
                &&& final(self).terminal_failed() == old(self).terminal_failed()
                &&& final(self).consumed() == old(self).consumed()
                &&& final(self).emitted() == old(self).emitted()
            },
            old(self).is_active() && old(self).buffered().len() > 0 ==> (r matches Pulled::Chunk(c)
                && c@ == old(self).buffered().take(c@.len() as int) && final(self).buffered()
                == old(self).buffered().skip(c@.len() as int) && final(self).consumed() == old(
                self,
            ).consumed()),
            match r {
                Pulled::Chunk(c) => {
                    &&& 0 < c@.len() <= old(self).spec_capacity()
                    &&& final(self).emitted() == old(self).emitted() + c@
                    &&& final(self).is_active()
                    &&& !final(self).terminal_failed()
                },
                Pulled::Done => {
                    &&& final(self).is_terminal()
                    &&& final(self).emitted() == old(self).emitted()
                    &&& final(self).consumed() == old(self).consumed()
                    &&& final(self).terminal_failed() == old(self).terminal_failed()
                },
                Pulled::Failed(_) => {
                    &&& old(self).is_active()
                    &&& final(self).is_terminal()
                    &&& final(self).terminal_failed()
                    &&& final(self).emitted() == old(self).emitted()
                    &&& final(self).consumed() == old(self).consumed()
                },
            },
    {
        if self.reader.is_none() {
            return Pulled::Done;
        }
        if self.buf.len() > 0 {
            return Pulled::Chunk(self.emit());
        }
        let taken = self.reader.take();
        match taken {
            None => Pulled::Done,
            Some(mut rd) => {
                let event = rd.pull();
                self.apply_event(rd, event)
            },
        }
    }

    /// One observed source event, applied to an adapter that just pulled its
    /// source (so it holds nothing back): exactly what the pull yields for
    /// each possible event. Bytes become the next chunk, capped at the
    /// capacity, any rest held back; no bytes or the end of the input make
    /// the adapter terminal-empty; a failure is handed back as it is and
    /// makes the adapter terminal-error.
    pub(crate) fn apply_event(&mut self, reader: Box<dyn ByteSource>, event: SourceEvent) -> (r: Pulled)
        requires
            old(self).wf(),
            old(self).is_terminal(),
            !old(self).terminal_failed(),
            old(self).buffered().len() == 0,
        ensures
            final(self).wf(),
            final(self).spec_capacity() == old(self).spec_capacity(),
            match event {
                SourceEvent::Data(d) => {
                    if d@.len() == 0 {
                        &&& r is Done
                        &&& final(self).is_terminal()
                        &&& !final(self).terminal_failed()
                        &&& final(self).consumed() == old(self).consumed()
                        &&& final(self).emitted() == old(self).emitted()
                    } else {
                        &&& (r matches Pulled::Chunk(c) && {
                            &&& c@ == d@.take(c@.len() as int)
                            &&& c@.len() == (if d@.len() <= old(self).spec_capacity() {
                                d@.len() as int
                            } else {
                                old(self).spec_capacity()
                            })
                            &&& final(self).consumed() == old(self).consumed() + d@
                            &&& final(self).emitted() == old(self).emitted() + c@
                            &&& final(self).buffered() == d@.skip(c@.len() as int)
                        })
                        &&& final(self).is_active()
                    }
                },
                SourceEvent::End => {
                    &&& r is Done
                    &&& final(self).is_terminal()
                    &&& !final(self).terminal_failed()
                    &&& final(self).consumed() == old(self).consumed()
                    &&& final(self).emitted() == old(self).emitted()
                },
                SourceEvent::Failed(e) => {
                    &&& r == Pulled::Failed(e)
                    &&& final(self).is_terminal()
                    &&& final(self).terminal_failed()
                    &&& final(self).consumed() == old(self).consumed()
                    &&& final(self).emitted() == old(self).emitted()
                },
            },
    {
        match event {
            SourceEvent::Data(d) => {
                if d.len() == 0 {
                    Pulled::Done
                } else {
                    self.reader = Some(reader);
                    self.buf = d;
                    proof {
                        self.consumed@ = self.consumed@ + self.buf@;
                        assert(self.emitted@ + self.buf@ =~= self.consumed@);
                    }
                    Pulled::Chunk(self.emit())
                }
            },
            SourceEvent::End => Pulled::Done,
            SourceEvent::Failed(e) => {
                self.failed = true;
                Pulled::Failed(e)
            },
        }
    }

    /// Whether the adapter is still active, that is, not yet terminal.
    pub fn active(&self) -> (r: bool)
        ensures
            r == self.is_active(),
    {
        self.reader.is_some()
    }

    /// Whether the adapter reached its terminal state through a failure of
    /// its source.
    pub fn failed(&self) -> (r: bool)
        ensures
            r == self.terminal_failed(),
    {
        self.failed
    }
}

/// The chunks of a finite stream, concatenated, are the source's bytes
/// exactly: once the adapter is terminal, everything it accepted from the
/// source has been handed out in chunks, in order, nothing more and nothing
/// less.
pub proof fn lemma_terminal_emits_all(a: ByteStreamAdapter)
    requires
        a.wf(),
        a.is_terminal(),
    ensures
        a.emitted() == a.consumed(),
{
    assert(a.emitted() + a.buffered() == a.consumed());
    assert(a.emitted() =~= a.consumed());
}

} // verus!
