//! One half-duplex copy flow: read a chunk from a source socket, hand exactly
//! those bytes to the opposite socket, until the source closes or an error
//! ends the flow.
//!
//! The state machine here makes every decision of the loop; the caller only
//! performs the reads and writes and reports their outcomes. Two ghost
//! sequences record what the source has yielded and what the sink has
//! accepted, so byte transparency is a theorem, not a hope.

use vstd::prelude::*;

verus! {

/// Which way a copy flow runs: `Up` carries bytes from the client to the
/// server, `Down` carries bytes from the server back to the client.
#[derive(Clone, Copy, Debug, PartialEq, Eq, Structural)]
pub enum Flow {
    Up,
    Down,
}

/// Why a copy flow stopped.
#[derive(Clone, Copy, Debug, PartialEq, Eq, Structural)]
pub enum Termination {
    /// The source reached end-of-stream: a clean half-close.
    SourceClosed,
    /// A read from the source failed.
    ReadFailed,
    /// A write to the sink failed.
    WriteFailed,
}

/// Where a copy flow stands between two events.
#[derive(Clone, Copy, Debug, PartialEq, Eq, Structural)]
pub enum CopyStatus {
    /// Waiting for the next read from the source.
    Ready,
    /// A chunk has been read and must reach the sink before the next read.
    Writing,
    /// The flow has terminated and will take no further event.
    Done(Termination),
}

/// What one read from the source yielded.
#[derive(Debug)]
pub enum ReadEvent {
    /// The bytes the read returned, already cut to the length actually read.
    Data(Vec<u8>),
    /// End-of-stream: the peer half-closed.
    Eof,
    /// The read failed.
    ReadError,
}

/// What the caller must do after reporting a read.
#[derive(Debug)]
pub enum CopyAction {
    /// Write exactly these bytes to the sink, then report the outcome.
    Forward(Vec<u8>),
    /// The flow is over: stop this copy loop.
    Stop,
}

/// The state of one copy flow. `received` holds every byte the source has
/// yielded so far; `forwarded` every byte the sink has accepted; `pending`
/// the one chunk read but not yet written.
pub struct CopyLoop {
    pub flow: Flow,
    pub status: CopyStatus,
    pub received: Ghost<Seq<u8>>,
    pub forwarded: Ghost<Seq<u8>>,
    pub pending: Ghost<Seq<u8>>,
}

impl CopyLoop {
    /// What every reachable state satisfies: the sink has been handed the
    /// bytes of the source in order, short of at most the pending chunk.
    pub open spec fn inv(self) -> bool {
        match self.status {
            CopyStatus::Ready => self.received@ == self.forwarded@,
            CopyStatus::Writing => self.received@ == self.forwarded@ + self.pending@,
            CopyStatus::Done(t) => match t {
                Termination::SourceClosed => self.received@ == self.forwarded@,
                Termination::ReadFailed => self.received@ == self.forwarded@,
                Termination::WriteFailed => self.received@ == self.forwarded@ + self.pending@,
            },
        }
    }

    /// The flow has terminated.
    pub open spec fn done(self) -> bool {
        self.status is Done
    }

    /// The flow can still forward bytes.
    pub open spec fn can_continue(self) -> bool {
        self.status is Ready || self.status is Writing
    }

    /// A fresh flow: nothing read, nothing forwarded, ready for the first read.
    pub fn new(flow: Flow) -> (d: CopyLoop)
        ensures
            d.inv(),
            d.flow == flow,
            d.status is Ready,
            d.received@ == Seq::<u8>::empty(),
            d.forwarded@ == Seq::<u8>::empty(),
    {
        CopyLoop {
            flow,
            status: CopyStatus::Ready,
            received: Ghost(Seq::empty()),
            forwarded: Ghost(Seq::empty()),
            pending: Ghost(Seq::empty()),
        }
    }

    /// Decide what one read means for this flow: data is forwarded verbatim,
    /// end-of-stream ends it cleanly, a read error ends it with a warning.
    pub fn on_read(&mut self, event: ReadEvent) -> (a: CopyAction)
        requires
            old(self).inv(),
            old(self).status is Ready,
        ensures
            final(self).inv(),
            final(self).flow == old(self).flow,
            final(self).forwarded@ == old(self).forwarded@,
            event matches ReadEvent::Data(chunk) ==> {
                &&& final(self).status is Writing
                &&& final(self).received@ == old(self).received@ + chunk@
                &&& final(self).pending@ == chunk@
                &&& a matches CopyAction::Forward(c) && c@ == chunk@
            },
            event is Eof ==> {
                &&& final(self).status == CopyStatus::Done(Termination::SourceClosed)
                &&& final(self).received@ == old(self).received@
                &&& a is Stop
            },
            event is ReadError ==> {
                &&& final(self).status == CopyStatus::Done(Termination::ReadFailed)
                &&& final(self).received@ == old(self).received@
                &&& a is Stop
            },
    {
        match event {
            ReadEvent::Data(chunk) => {
                self.received = Ghost(self.received@ + chunk@);
                self.pending = Ghost(chunk@);
                self.status = CopyStatus::Writing;
                CopyAction::Forward(chunk)
            },
            ReadEvent::Eof => {
                self.status = CopyStatus::Done(Termination::SourceClosed);
                CopyAction::Stop
            },
            ReadEvent::ReadError => {
                self.status = CopyStatus::Done(Termination::ReadFailed);
                CopyAction::Stop
            },
        }
    }

    /// Record the outcome of writing the pending chunk: on success the sink
    /// has accepted it and the flow reads again; on failure the flow ends.
    pub fn on_write_result(&mut self, ok: bool)
        requires
            old(self).inv(),
            old(self).status is Writing,
        ensures
            final(self).inv(),
            final(self).flow == old(self).flow,
            final(self).received@ == old(self).received@,
            ok ==> {
                &&& final(self).status is Ready
                &&& final(self).forwarded@ == old(self).forwarded@ + old(self).pending@
                &&& final(self).forwarded@ == final(self).received@
            },
            !ok ==> {
                &&& final(self).status == CopyStatus::Done(Termination::WriteFailed)
                &&& final(self).forwarded@ == old(self).forwarded@
            },
    {
        if ok {
            self.forwarded = Ghost(self.forwarded@ + self.pending@);
            self.pending = Ghost(Seq::empty());
            self.status = CopyStatus::Ready;
        } else {
            self.status = CopyStatus::Done(Termination::WriteFailed);
        }
    }
}

/// Copy the first `n` bytes of a read buffer into a chunk of their own.
/// This is what turns one raw read — a fixed-size buffer and the count the
/// read returned — into the exact bytes to forward.
pub fn chunk_of(buffer: &[u8], n: usize) -> (chunk: Vec<u8>)
    requires
        n <= buffer@.len(),
    ensures
        chunk@ == buffer@.subrange(0, n as int),
{
    let mut chunk: Vec<u8> = Vec::new();
    let mut i: usize = 0;
    while i < n
        invariant
            i <= n,
            n <= buffer@.len(),
            chunk@ == buffer@.subrange(0, i as int),
        decreases n - i,
    {
        chunk.push(buffer[i]);
        proof {
            assert(chunk@ =~= buffer@.subrange(0, i + 1));
        }
        i = i + 1;
    }
    chunk
}

/// The views of a vector of chunks.
pub open spec fn views_of(chunks: Seq<Vec<u8>>) -> Seq<Seq<u8>> {
    chunks.map_values(|c: Vec<u8>| c@)
}

/// The concatenation of a sequence of chunks.
pub open spec fn concat_of(chunks: Seq<Seq<u8>>) -> Seq<u8>
    decreases chunks.len(),
{
    if chunks.len() == 0 {
        Seq::empty()
    } else {
        concat_of(chunks.drop_last()) + chunks.last()
    }
}

proof fn lemma_concat_of_take_one_more(chunks: Seq<Seq<u8>>, i: int)
    requires
        0 <= i < chunks.len(),
    ensures
        concat_of(chunks.take(i + 1)) == concat_of(chunks.take(i)) + chunks[i],
{
    assert(chunks.take(i + 1).drop_last() =~= chunks.take(i));
    assert(chunks.take(i + 1).last() == chunks[i]);
}

/// Drive one fresh copy flow over an in-memory source that yields `chunks`
/// and then end-of-stream, against a sink that accepts every write. The sink
/// receives exactly the concatenation of the chunks: the whole-run statement
/// of transparency, and — since the result is pinned to a function of the
/// input alone — of deterministic forwarding.
pub fn copy_run(flow: Flow, chunks: &Vec<Vec<u8>>) -> (out: Vec<u8>)
    ensures
        out@ == concat_of(views_of(chunks@)),
{
    let mut d = CopyLoop::new(flow);
    let mut out: Vec<u8> = Vec::new();
    let mut i: usize = 0;
    while i < chunks.len()
        invariant
            d.inv(),
            d.status is Ready,
            i <= chunks@.len(),
            d.received@ == concat_of(views_of(chunks@).take(i as int)),
            out@ == d.forwarded@,
        decreases chunks@.len() - i,
    {
        let chunk = chunk_of(chunks[i].as_slice(), chunks[i].len());
        proof {
            assert(chunk@ =~= chunks@[i as int]@);
        }
        let a = d.on_read(ReadEvent::Data(chunk));
        match a {
            CopyAction::Forward(c) => {
                let mut c = c;
                out.append(&mut c);
            },
            CopyAction::Stop => {
                proof {
                    assert(false);
                }
            },
        }
        d.on_write_result(true);
        proof {
            lemma_concat_of_take_one_more(views_of(chunks@), i as int);
        }
        i = i + 1;
    }
    let a = d.on_read(ReadEvent::Eof);
    proof {
        lemma_transparency(d);
        assert(views_of(chunks@).take(chunks@.len() as int) =~= views_of(chunks@));
    }
    out
}

/// Echo round trip: when the bytes a client sent up are played back down
/// unchanged — an echoing destination — the client reads back exactly what
/// it sent.
pub proof fn lemma_echo_round_trip(up: CopyLoop, down: CopyLoop)
    requires
        up.inv(),
        down.inv(),
        up.status == CopyStatus::Done(Termination::SourceClosed),
        down.status == CopyStatus::Done(Termination::SourceClosed),
        down.received@ == up.forwarded@,
    ensures
        down.forwarded@ == up.received@,
{
}

/// Byte transparency: a flow whose source reached end-of-stream has handed
/// the sink exactly the bytes the source yielded, in order, with no
/// additions or omissions.
pub proof fn lemma_transparency(d: CopyLoop)
    requires
        d.inv(),
        d.status == CopyStatus::Done(Termination::SourceClosed),
    ensures
        d.forwarded@ == d.received@,
{
}

/// Order and integrity: in every reachable state — terminated or not, failed
/// or not — the sink has been handed a prefix of what the source yielded:
/// nothing is injected, reordered or rewritten.
pub proof fn lemma_no_injection(d: CopyLoop)
    requires
        d.inv(),
    ensures
        d.forwarded@.is_prefix_of(d.received@),
{
    assert(d.forwarded@ =~= d.received@.subrange(0, d.forwarded@.len() as int));
}

} // verus!
