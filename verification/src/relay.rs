//! The per-connection relay engine.
//!
//! A connection pipe owns one inbound and one outbound connection and
//! copies bytes between them in both directions. Each direction is driven
//! by the surrounding program: it reads from one connection, reports what
//! it read as a [`ReadOutcome`], and performs the [`RelayAction`] handed
//! back. The state machine here guarantees byte-level fidelity — every
//! byte handed out to be written is a byte that was read, in the same
//! order, with nothing added, dropped or reordered — and says exactly when
//! a direction terminates.

use vstd::prelude::*;

verus! {

/// How one copy direction stands.
#[derive(Clone, Copy, Debug, PartialEq, Eq, Structural)]
pub enum DirectionStatus {
    /// Still relaying.
    Running,
    /// The read half reported a clean EOF; the peer closed its write side.
    Done,
    /// The read or write half reported an I/O error.
    Failed,
}

/// What one read from the source connection of a direction yielded.
pub enum ReadOutcome {
    /// A chunk of bytes arrived.
    Chunk(Vec<u8>),
    /// The peer closed its write side: clean end of this direction.
    Eof,
    /// The read failed with an I/O error.
    ReadError,
}

/// What the surrounding program must do next with the destination
/// connection of a direction.
pub enum RelayAction {
    /// Write exactly these bytes, in this order.
    Forward(Vec<u8>),
    /// Close the write side of the destination and finish this direction.
    ShutdownWrite,
    /// Give the direction up; both halves are to be closed.
    Abort,
}

/// One direction of a connection pipe.
pub struct CopyDirection {
    pub status: DirectionStatus,
    /// All bytes taken from the read half so far, in order.
    pub taken: Ghost<Seq<u8>>,
    /// All bytes handed out for the write half so far, in order.
    pub passed: Ghost<Seq<u8>>,
}

impl CopyDirection {
    /// Fidelity invariant: what went out is exactly what came in.
    pub open spec fn wf(self) -> bool {
        self.passed@ == self.taken@
    }

    /// The direction has come to its end, cleanly or not.
    pub open spec fn terminated(self) -> bool {
        self.status != DirectionStatus::Running
    }

    /// A fresh direction: running, nothing read, nothing written.
    pub fn new() -> (d: Self)
        ensures
            d.wf(),
            d.status == DirectionStatus::Running,
            d.taken@ == Seq::<u8>::empty(),
            d.passed@ == Seq::<u8>::empty(),
    {
        CopyDirection {
            status: DirectionStatus::Running,
            taken: Ghost(Seq::empty()),
            passed: Ghost(Seq::empty()),
        }
    }

    /// Decides what to do with the outcome of one read: a chunk is
    /// forwarded verbatim, EOF closes the write side of the destination,
    /// an error gives the direction up. Nothing read before the outcome
    /// is ever lost or altered.
    pub fn on_read(&mut self, outcome: ReadOutcome) -> (action: RelayAction)
        requires
            old(self).wf(),
            !old(self).terminated(),
        ensures
            final(self).wf(),
            match outcome {
                ReadOutcome::Chunk(chunk) => {
                    &&& action matches RelayAction::Forward(out) && out@ == chunk@
                    &&& final(self).status == DirectionStatus::Running
                    &&& final(self).taken@ == old(self).taken@ + chunk@
                    &&& final(self).passed@ == old(self).passed@ + chunk@
                },
                ReadOutcome::Eof => {
                    &&& action matches RelayAction::ShutdownWrite
                    &&& final(self).status == DirectionStatus::Done
                    &&& final(self).taken@ == old(self).taken@
                    &&& final(self).passed@ == old(self).passed@
                },
                ReadOutcome::ReadError => {
                    &&& action matches RelayAction::Abort
                    &&& final(self).status == DirectionStatus::Failed
                    &&& final(self).taken@ == old(self).taken@
                    &&& final(self).passed@ == old(self).passed@
                },
            },
    {
        match outcome {
            ReadOutcome::Chunk(chunk) => {
                let ghost bytes = chunk@;
                self.taken = Ghost(self.taken@ + bytes);
                self.passed = Ghost(self.passed@ + bytes);
                RelayAction::Forward(chunk)
            },
            ReadOutcome::Eof => {
                self.status = DirectionStatus::Done;
                RelayAction::ShutdownWrite
            },
            ReadOutcome::ReadError => {
                self.status = DirectionStatus::Failed;
                RelayAction::Abort
            },
        }
    }

    /// The write half failed while forwarding: the direction is given up.
    pub fn on_write_error(&mut self)
        requires
            !old(self).terminated(),
        ensures
            final(self).status == DirectionStatus::Failed,
            final(self).taken@ == old(self).taken@,
            final(self).passed@ == old(self).passed@,
            old(self).wf() ==> final(self).wf(),
    {
        self.status = DirectionStatus::Failed;
    }
}

/// A connection pipe: the two copy directions over one inbound and one
/// outbound connection. The pipe owns nothing shared with any other pipe.
pub struct Pipe {
    /// Bytes flowing from the accepted connection to the dialed one.
    pub inbound_to_outbound: CopyDirection,
    /// Bytes flowing from the dialed connection back to the accepted one.
    pub outbound_to_inbound: CopyDirection,
}

impl Pipe {
    pub open spec fn wf(self) -> bool {
        self.inbound_to_outbound.wf() && self.outbound_to_inbound.wf()
    }

    /// First completion or first error wins: the pipe as a whole is over
    /// as soon as either direction has terminated.
    pub open spec fn complete(self) -> bool {
        self.inbound_to_outbound.terminated() || self.outbound_to_inbound.terminated()
    }

    /// A fresh pipe over a newly accepted and a newly dialed connection.
    pub fn new() -> (p: Self)
        ensures
            p.wf(),
            !p.complete(),
            p.inbound_to_outbound.taken@ == Seq::<u8>::empty(),
            p.outbound_to_inbound.taken@ == Seq::<u8>::empty(),
    {
        Pipe { inbound_to_outbound: CopyDirection::new(), outbound_to_inbound: CopyDirection::new() }
    }

    /// Whether the pipe is over and both connections are to be closed.
    pub fn is_complete(&self) -> (b: bool)
        ensures
            b == self.complete(),
    {
        let a = match self.inbound_to_outbound.status {
            DirectionStatus::Running => false,
            _ => true,
        };
        let b = match self.outbound_to_inbound.status {
            DirectionStatus::Running => false,
            _ => true,
        };
        a || b
    }
}

/// Byte-level fidelity: in a well-formed direction the bytes handed to the
/// write half are exactly the bytes taken from the read half — the same
/// length, and the same byte at every position.
pub proof fn lemma_byte_fidelity(d: CopyDirection)
    requires
        d.wf(),
    ensures
        d.passed@.len() == d.taken@.len(),
        forall|i: int| 0 <= i < d.taken@.len() ==> d.passed@[i] == d.taken@[i],
{
}

/// Isolation: a direction's output is made of its own input alone. A byte
/// value that was never read on a direction never appears in its output,
/// however much of that byte any concurrently active direction carries.
pub proof fn lemma_isolation(mine: CopyDirection, other: CopyDirection, byte: u8)
    requires
        mine.wf(),
        other.wf(),
        !mine.taken@.contains(byte),
    ensures
        !mine.passed@.contains(byte),
{
}

/// Half-close propagation: a direction that reached its clean end has
/// already handed every byte it ever read out for writing; closing the
/// destination's write side at that point loses nothing.
pub proof fn lemma_half_close_delivers_all(d: CopyDirection)
    requires
        d.wf(),
        d.status == DirectionStatus::Done,
    ensures
        d.passed@ == d.taken@,
{
}

} // verus!
