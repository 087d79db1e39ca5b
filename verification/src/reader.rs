//! Stream-reader bookkeeping.
//!
//! The reader drains the input stream in fixed-size chunks. For each read it
//! decides whether to keep going (`reader_step`), records the bytes in the
//! shared counter, and, when forwarding is enabled, hands back an exact copy
//! of the chunk to be written to the output stream. `StreamReader` keeps a
//! ghost record of every byte consumed and every byte emitted, so that
//! forwarding fidelity is an invariant: with forwarding on, the emitted
//! sequence always equals the consumed sequence; with forwarding off, nothing
//! is ever emitted.

use vstd::prelude::*;
use crate::counter::SharedCounter;

verus! {

/// What one read from the input stream produced, as a plain value:
/// `Bytes(0)` is clean end-of-stream, `Bytes(n)` with `n > 0` is data, and
/// `Failed` is any read error.
#[derive(Clone, Copy, PartialEq, Eq, Structural, Debug)]
pub enum ReadOutcome {
    Bytes(usize),
    Failed,
}

/// What the reader does next: stop reading, or process `n` fresh bytes.
#[derive(Clone, Copy, PartialEq, Eq, Structural, Debug)]
pub enum ReaderAction {
    Stop,
    Process(usize),
}

/// The reader's loop decision: a zero-byte read is clean end-of-stream and a
/// read error is treated the same way, both stopping the loop; a read of
/// `n > 0` bytes is processed.
pub fn reader_step(outcome: &ReadOutcome) -> (a: ReaderAction)
    ensures
        match *outcome {
            ReadOutcome::Bytes(n) => a == if n == 0 {
                ReaderAction::Stop
            } else {
                ReaderAction::Process(n)
            },
            ReadOutcome::Failed => a == ReaderAction::Stop,
        },
{
    match *outcome {
        ReadOutcome::Bytes(n) => {
            if n == 0 {
                ReaderAction::Stop
            } else {
                ReaderAction::Process(n)
            }
        },
        ReadOutcome::Failed => ReaderAction::Stop,
    }
}

/// The first `n` bytes of `buf`: the portion of the read buffer that one
/// read actually filled.
pub fn chunk_prefix(buf: &Vec<u8>, n: usize) -> (chunk: Vec<u8>)
    requires
        n <= buf.len(),
    ensures
        chunk@ == buf@.take(n as int),
{
    let mut chunk: Vec<u8> = Vec::new();
    let mut i: usize = 0;
    while i < n
        invariant
            i <= n,
            n <= buf@.len(),
            chunk@ == buf@.take(i as int),
        decreases n - i,
    {
        chunk.push(buf[i]);
        proof {
            assert(chunk@ =~= buf@.take(i + 1 as int));
        }
        i = i + 1;
    }
    chunk
}

/// Per-run bookkeeping of the stream reader: whether forwarding is enabled,
/// and ghost records of the bytes consumed from the input and emitted to the
/// output.
pub struct StreamReader {
    forward: bool,
    consumed: Ghost<Seq<u8>>,
    emitted: Ghost<Seq<u8>>,
}

impl StreamReader {
    /// Whether every chunk is also copied to the output stream.
    pub closed spec fn forwarding(&self) -> bool {
        self.forward
    }

    /// Every byte consumed from the input stream so far, in order.
    pub closed spec fn consumed(&self) -> Seq<u8> {
        self.consumed@
    }

    /// Every byte emitted to the output stream so far, in order.
    pub closed spec fn emitted(&self) -> Seq<u8> {
        self.emitted@
    }

    /// Forwarding fidelity invariant: with forwarding on, the output is an
    /// exact copy of the input; with forwarding off, the output is empty.
    pub open spec fn wf(&self) -> bool {
        self.emitted() == if self.forwarding() {
            self.consumed()
        } else {
            Seq::<u8>::empty()
        }
    }

    /// A fresh reader has consumed and emitted nothing.
    pub fn new(forward: bool) -> (r: StreamReader)
        ensures
            r.wf(),
            r.forwarding() == forward,
            r.consumed() == Seq::<u8>::empty(),
            r.emitted() == Seq::<u8>::empty(),
    {
        StreamReader {
            forward,
            consumed: Ghost(Seq::empty()),
            emitted: Ghost(Seq::empty()),
        }
    }

    /// Process one chunk of freshly read bytes: add its length to the shared
    /// counter, record it as consumed, and, exactly when forwarding is
    /// enabled, return an identical copy to be written to the output stream.
    pub fn process_chunk(&mut self, chunk: &Vec<u8>, counter: &mut SharedCounter) -> (out: Option<
        Vec<u8>,
    >)
        requires
            old(self).wf(),
            old(counter).count() + chunk@.len() <= usize::MAX,
        ensures
            final(self).wf(),
            final(self).forwarding() == old(self).forwarding(),
            final(self).consumed() == old(self).consumed() + chunk@,
            final(counter).count() == old(counter).count() + chunk@.len(),
            old(self).forwarding() ==> (out matches Some(copy) && copy@ == chunk@),
            !old(self).forwarding() ==> out is None,
            final(self).emitted() == old(self).emitted() + if old(self).forwarding() {
                chunk@
            } else {
                Seq::<u8>::empty()
            },
    {
        counter.record_read(chunk.len());
        self.consumed = Ghost(self.consumed@ + chunk@);
        if self.forward {
            self.emitted = Ghost(self.emitted@ + chunk@);
            let copy = chunk_prefix(chunk, chunk.len());
            proof {
                assert(copy@ =~= chunk@);
            }
            Some(copy)
        } else {
            proof {
                assert(self.emitted@ =~= self.emitted@ + Seq::<u8>::empty());
            }
            None
        }
    }
}

/// Forwarding idempotence: over any run of the reader, the byte sequence
/// written to the output stream is identical, in order and content, to the
/// byte sequence read from the input stream when forwarding is enabled, and
/// empty when forwarding is disabled.
pub proof fn lemma_forwarding_faithful(r: StreamReader)
    requires
        r.wf(),
    ensures
        r.forwarding() ==> r.emitted() == r.consumed(),
        !r.forwarding() ==> r.emitted() == Seq::<u8>::empty(),
{
}

} // verus!
