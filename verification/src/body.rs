//! The canonical body: absent, a materialized buffer, or a lazy stream of
//! byte chunks.
//!
//! A stream is not restartable and has one consumer.  The host runtime owns
//! the native chunk producer; each time it obtains a native event it hands
//! that event to the stream's valve, which decides what the consumer observes
//! and enforces the terminal-error invariant: once an error or the end of the
//! stream has been yielded, nothing further is ever delivered.

use vstd::prelude::*;

verus! {

/// A canonical body-stream error, one of three kinds.
#[derive(Clone, Debug, PartialEq, Eq)]
pub enum BodyError {
    /// The transport closed before the declared length was reached, with the
    /// underlying cause where one is known.
    Incomplete(Option<String>),
    /// A lower-level transport fault.
    Io(String),
    /// An error variant the bridge does not specifically recognize,
    /// stringified.
    Other(String),
}

/// A runtime-native payload failure, reduced to the parts the error-mapping
/// policy reads: an early close (with its cause, where the runtime reports
/// one), a transport fault, or anything else already stringified.
#[derive(Clone, Debug, PartialEq, Eq)]
pub enum PayloadFault {
    Incomplete(Option<String>),
    Io(String),
    Unrecognized(String),
}

/// One event obtained from the runtime-native chunk producer.
#[derive(Clone, Debug, PartialEq, Eq)]
pub enum ChunkEvent {
    /// A chunk of body data arrived.
    Data(Vec<u8>),
    /// The producer failed; no more data will come.
    Fault(PayloadFault),
    /// The producer finished normally.
    End,
}

/// One unit the consumer of a stream body observes.
#[derive(Clone, Debug, PartialEq, Eq)]
pub enum Frame {
    Data(Vec<u8>),
    Error(BodyError),
}

/// The valve of one stream body.  It owns no bytes itself; it tracks whether
/// the stream has terminated, and translates native events into observed
/// frames.  The native producer handle stays with the host runtime.
#[derive(Debug)]
pub struct DavBody {
    terminated: bool,
}

/// The canonical body.
#[derive(Debug)]
pub enum Body {
    /// Zero bytes, known length zero.
    Empty,
    /// Zero or one fully materialized chunk.  `None` and an empty buffer are
    /// both valid "no content" encodings and are treated identically
    /// downstream.
    Bytes(Option<Vec<u8>>),
    /// A lazy, possibly-erroring sequence of chunks, pulled through the valve.
    Stream(DavBody),
}

/// The error-mapping policy: how a native payload failure becomes a canonical
/// error.  No canonical error is ever synthesized from a successful end of
/// stream.
pub open spec fn spec_map_fault(f: PayloadFault) -> BodyError {
    match f {
        PayloadFault::Incomplete(cause) => BodyError::Incomplete(cause),
        PayloadFault::Io(m) => BodyError::Io(m),
        PayloadFault::Unrecognized(m) => BodyError::Other(m),
    }
}

/// Translate a native payload failure into the canonical error taxonomy.
pub fn map_fault(f: PayloadFault) -> (r: BodyError)
    ensures
        r == spec_map_fault(f),
{
    match f {
        PayloadFault::Incomplete(cause) => BodyError::Incomplete(cause),
        PayloadFault::Io(m) => BodyError::Io(m),
        PayloadFault::Unrecognized(m) => BodyError::Other(m),
    }
}

/// One step of the valve: from the termination flag and a native event to the
/// new flag and the frame the consumer observes, if any.
pub open spec fn spec_step(terminated: bool, ev: ChunkEvent) -> (bool, Option<Frame>) {
    if terminated {
        (true, None)
    } else {
        match ev {
            ChunkEvent::Data(d) => (false, Some(Frame::Data(d))),
            ChunkEvent::Fault(f) => (true, Some(Frame::Error(spec_map_fault(f)))),
            ChunkEvent::End => (true, None),
        }
    }
}

/// The frames a consumer observes when a valve starting in state `terminated`
/// is fed the events `evs` in order.
pub open spec fn spec_observed(terminated: bool, evs: Seq<ChunkEvent>) -> Seq<Frame>
    decreases evs.len(),
{
    if evs.len() == 0 {
        Seq::empty()
    } else {
        let stepped = spec_step(terminated, evs[0]);
        let here = match stepped.1 {
            Some(f) => seq![f],
            None => Seq::<Frame>::empty(),
        };
        here + spec_observed(stepped.0, evs.skip(1))
    }
}

impl DavBody {
    /// Whether the stream has terminated: after an error or a normal end,
    /// nothing further is delivered.
    pub closed spec fn spec_terminated(&self) -> bool {
        self.terminated
    }

    /// A fresh valve for a stream no one has pulled from yet.
    pub fn new() -> (r: DavBody)
        ensures
            !r.spec_terminated(),
    {
        DavBody { terminated: false }
    }

    /// Feed one native event through the valve and obtain what the consumer
    /// observes: a data frame, a terminal error frame, or nothing.
    ///
    /// A data chunk passes through unchanged.  A fault is mapped by the
    /// error-mapping policy and terminates the stream.  A normal end
    /// terminates the stream silently.  Once terminated, every further event
    /// is swallowed: no frame follows an error or the end.
    pub fn next_frame(&mut self, ev: ChunkEvent) -> (r: Option<Frame>)
        ensures
            final(self).spec_terminated() == spec_step(old(self).spec_terminated(), ev).0,
            r == spec_step(old(self).spec_terminated(), ev).1,
    {
        if self.terminated {
            return None;
        }
        match ev {
            ChunkEvent::Data(d) => Some(Frame::Data(d)),
            ChunkEvent::Fault(f) => {
                self.terminated = true;
                Some(Frame::Error(map_fault(f)))
            },
            ChunkEvent::End => {
                self.terminated = true;
                None
            },
        }
    }
}

/// A terminated valve observes nothing, whatever events are still fed to it.
pub proof fn lemma_terminated_observes_nothing(evs: Seq<ChunkEvent>)
    ensures
        spec_observed(true, evs) =~= Seq::<Frame>::empty(),
    decreases evs.len(),
{
    if evs.len() > 0 {
        lemma_terminated_observes_nothing(evs.skip(1));
    }
}

/// A stream that yields two chunks and then a fault is observed as exactly
/// those two chunks followed by one terminal error, whatever else the native
/// producer does afterwards: no chunk is delivered after the error.
pub proof fn lemma_stream_error_is_terminal(
    c1: Vec<u8>,
    c2: Vec<u8>,
    f: PayloadFault,
    rest: Seq<ChunkEvent>,
)
    ensures
        spec_observed(
            false,
            seq![
                ChunkEvent::Data(c1),
                ChunkEvent::Data(c2),
                ChunkEvent::Fault(f),
            ] + rest,
        ) =~= seq![
            Frame::Data(c1),
            Frame::Data(c2),
            Frame::Error(spec_map_fault(f)),
        ],
{
    let evs = seq![ChunkEvent::Data(c1), ChunkEvent::Data(c2), ChunkEvent::Fault(f)] + rest;
    let e1 = evs.skip(1);
    let e2 = e1.skip(1);
    let e3 = e2.skip(1);
    assert(evs[0] == ChunkEvent::Data(c1));
    assert(e1[0] == ChunkEvent::Data(c2));
    assert(e2[0] == ChunkEvent::Fault(f));
    assert(e3 =~= rest);
    lemma_terminated_observes_nothing(rest);
    assert(spec_observed(true, e3) =~= Seq::<Frame>::empty());
    assert(spec_observed(false, e2) =~= seq![Frame::Error(spec_map_fault(f))]);
    assert(spec_observed(false, e1) =~= seq![Frame::Data(c2), Frame::Error(spec_map_fault(f))]);
    assert(spec_observed(false, evs) =~= seq![
        Frame::Data(c1),
        Frame::Data(c2),
        Frame::Error(spec_map_fault(f)),
    ]);
}

} // verus!
