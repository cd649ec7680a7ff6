//! Decision rules of the readiness-based backend.
//!
//! The alternate backend is notified that a socket is ready and performs the
//! read or write itself.  Its I/O stays outside; this module holds the rules
//! it applies to each outcome, and the growable accumulator for a readable
//! socket drained until it would block.
//!
//! Interruption is handled by an explicit retry loop at the caller — the
//! `Retry` step — rather than by recursion, so repeated interruption cannot
//! grow the stack.

use vstd::prelude::*;

verus! {

/// How one write attempt of the canned response ended.
#[derive(Clone, Copy, Debug, PartialEq, Eq, Structural)]
pub enum WriteOutcome {
    /// The write returned, having written `count` bytes.
    Wrote { count: usize },
    /// The socket was not ready after all.
    WouldBlock,
    /// The call was interrupted before doing anything.
    Interrupted,
    /// Any other error.
    Failed,
}

/// What to do after a write attempt.
#[derive(Clone, Copy, Debug, PartialEq, Eq, Structural)]
pub enum WriteStep {
    /// The whole response went out: watch the socket for reads again.
    AwaitRead,
    /// Fewer bytes than the response were written: fail the connection.
    ShortWrite,
    /// Interrupted: attempt the same write again.
    Retry,
    /// Would block: leave the registration as it is and return to the loop.
    KeepWaiting,
    /// An unrecoverable error: fail the connection.
    Fail,
}

/// How one read attempt ended.
#[derive(Clone, Copy, Debug, PartialEq, Eq, Structural)]
pub enum ReadOutcome {
    /// A zero-length read: the peer closed the connection.
    Eof,
    /// `count` bytes arrived.
    Got { count: usize },
    /// Nothing more to read for now.
    WouldBlock,
    /// The call was interrupted before doing anything.
    Interrupted,
    /// Any other error.
    Failed,
}

/// What to do after a read attempt.
#[derive(Clone, Copy, Debug, PartialEq, Eq, Structural)]
pub enum ReadStep {
    /// Peer closed: note it and stop reading.
    Closed,
    /// Bytes arrived: absorb them and read again.
    Absorb,
    /// Drained for now: stop reading.
    Settled,
    /// Interrupted: attempt the same read again.
    Retry,
    /// An unrecoverable error: fail the connection.
    Fail,
}

pub open spec fn write_step_spec(outcome: WriteOutcome, response_len: usize) -> WriteStep {
    match outcome {
        WriteOutcome::Wrote { count } => if count < response_len {
            WriteStep::ShortWrite
        } else {
            WriteStep::AwaitRead
        },
        WriteOutcome::WouldBlock => WriteStep::KeepWaiting,
        WriteOutcome::Interrupted => WriteStep::Retry,
        WriteOutcome::Failed => WriteStep::Fail,
    }
}

/// The rule applied to each attempt to write the canned response.
pub fn write_step(outcome: WriteOutcome, response_len: usize) -> (s: WriteStep)
    ensures
        s == write_step_spec(outcome, response_len),
{
    match outcome {
        WriteOutcome::Wrote { count } => if count < response_len {
            WriteStep::ShortWrite
        } else {
            WriteStep::AwaitRead
        },
        WriteOutcome::WouldBlock => WriteStep::KeepWaiting,
        WriteOutcome::Interrupted => WriteStep::Retry,
        WriteOutcome::Failed => WriteStep::Fail,
    }
}

pub open spec fn read_step_spec(outcome: ReadOutcome) -> ReadStep {
    match outcome {
        ReadOutcome::Eof => ReadStep::Closed,
        ReadOutcome::Got { count: _ } => ReadStep::Absorb,
        ReadOutcome::WouldBlock => ReadStep::Settled,
        ReadOutcome::Interrupted => ReadStep::Retry,
        ReadOutcome::Failed => ReadStep::Fail,
    }
}

/// The rule applied to each attempt to read from a readable socket.
pub fn read_step(outcome: ReadOutcome) -> (s: ReadStep)
    ensures
        s == read_step_spec(outcome),
{
    match outcome {
        ReadOutcome::Eof => ReadStep::Closed,
        ReadOutcome::Got { count: _ } => ReadStep::Absorb,
        ReadOutcome::WouldBlock => ReadStep::Settled,
        ReadOutcome::Interrupted => ReadStep::Retry,
        ReadOutcome::Failed => ReadStep::Fail,
    }
}

/// The accumulator a readable socket is drained into: a buffer that starts
/// at one block and grows by a block whenever a read fills it to the brim,
/// so the next read always has room.
pub struct ReadAccum {
    /// Capacity in bytes; always a whole number of blocks ahead of `filled`.
    capacity: usize,
    /// Bytes received so far.
    filled: usize,
}

/// Size in bytes of one accumulator block.
pub const BLOCK: usize = 1024;

impl ReadAccum {
    pub closed spec fn filled_bytes(self) -> int {
        self.filled as int
    }

    pub closed spec fn capacity_bytes(self) -> int {
        self.capacity as int
    }

    /// The accumulator always has room for the next read.
    pub closed spec fn wf(self) -> bool {
        self.filled < self.capacity && self.capacity <= usize::MAX - BLOCK
    }

    /// Room left for the next read.
    pub open spec fn room(self) -> int {
        self.capacity_bytes() - self.filled_bytes()
    }

    pub fn new() -> (a: ReadAccum)
        ensures
            a.wf(),
            a.filled_bytes() == 0,
            a.capacity_bytes() == BLOCK,
    {
        ReadAccum { capacity: BLOCK, filled: 0 }
    }

    /// Bytes received so far.
    pub fn filled(&self) -> (n: usize)
        ensures
            n == self.filled_bytes(),
    {
        self.filled
    }

    /// Capacity the caller's buffer must have.
    pub fn capacity(&self) -> (n: usize)
        ensures
            n == self.capacity_bytes(),
    {
        self.capacity
    }

    /// Record that a read placed `count` bytes after the bytes already
    /// received; grow by one block when that fills the buffer, so room
    /// remains.  A read never returns more than the room it was offered.
    pub fn absorb(&mut self, count: usize)
        requires
            old(self).wf(),
            0 < count <= old(self).room(),
            old(self).capacity_bytes() + BLOCK <= usize::MAX - BLOCK,
        ensures
            final(self).wf(),
            final(self).filled_bytes() == old(self).filled_bytes() + count,
            final(self).capacity_bytes() == if old(self).filled_bytes() + count == old(
                self,
            ).capacity_bytes() {
                old(self).capacity_bytes() + BLOCK
            } else {
                old(self).capacity_bytes()
            },
    {
        self.filled = self.filled + count;
        if self.filled == self.capacity {
            self.capacity = self.capacity + BLOCK;
        }
    }

    /// The decisions once the socket is drained: re-register for writing as
    /// well exactly when bytes arrived, and report the connection done
    /// exactly when the peer closed.
    pub fn epilogue(&self, peer_closed: bool) -> (r: (bool, bool))
        ensures
            r.0 == (self.filled_bytes() != 0),
            r.1 == peer_closed,
    {
        (self.filled != 0, peer_closed)
    }
}

} // verus!
