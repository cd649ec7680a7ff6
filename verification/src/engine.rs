//! The ring engine's submission flow control.
//!
//! The engine decides where a new operation goes — straight onto the
//! submission ring when there is space, or onto the backlog queue when the
//! ring is full — and replays the backlog FIFO into the ring whenever space
//! frees up, before any newly generated operation is submitted.  Overflow is
//! absorbed, never reported as an error, and no operation is dropped.
//!
//! The ring itself is a kernel object the caller drives; the engine is handed
//! the two facts it needs (whether the completion ring is full and whether
//! the submission ring has space) and hands back the operations to place on
//! the ring now.  Two ghost sequences record every operation that ever
//! entered the backlog and every operation replayed out of it, so the no-loss
//! law is an invariant of the engine itself.

use std::collections::VecDeque;
use vstd::prelude::*;

use crate::tag::SubmitOp;

verus! {

/// What the drain loop should do next, given the state of the two rings and
/// of the backlog.
#[derive(Clone, Copy, Debug, PartialEq, Eq, Structural)]
pub enum DrainStep {
    /// Stop draining: the completion ring is full or nothing is backlogged.
    Stop,
    /// Block until the submission ring has space again, then retry.
    WaitForRing,
    /// Replay the oldest backlogged operation onto the ring.
    Replay,
}

pub struct Engine {
    backlog: VecDeque<SubmitOp>,
    /// Every operation that ever entered the backlog, oldest first.
    enqueued: Ghost<Seq<SubmitOp>>,
    /// Every operation replayed from the backlog to the ring, oldest first.
    replayed: Ghost<Seq<SubmitOp>>,
}

impl Engine {
    /// Operations currently waiting in the backlog, oldest first.
    pub closed spec fn pending(self) -> Seq<SubmitOp> {
        self.backlog@
    }

    /// All operations the ring ever refused, oldest first.
    pub closed spec fn overflowed(self) -> Seq<SubmitOp> {
        self.enqueued@
    }

    /// All operations replayed back onto the ring, oldest first.
    pub closed spec fn replayed_ops(self) -> Seq<SubmitOp> {
        self.replayed@
    }

    /// The backlog invariant: what overflowed is exactly what was replayed
    /// followed by what still waits — nothing dropped, order kept.
    pub open spec fn inv(self) -> bool {
        self.overflowed() == self.replayed_ops() + self.pending()
    }

    pub fn new() -> (e: Engine)
        ensures
            e.inv(),
            e.pending() == Seq::<SubmitOp>::empty(),
            e.overflowed() == Seq::<SubmitOp>::empty(),
            e.replayed_ops() == Seq::<SubmitOp>::empty(),
    {
        let e = Engine {
            backlog: VecDeque::new(),
            enqueued: Ghost(Seq::empty()),
            replayed: Ghost(Seq::empty()),
        };
        proof {
            assert(e.inv()) by {
                assert(e.overflowed() =~= e.replayed_ops() + e.pending());
            }
        }
        e
    }

    /// Route a new operation: onto the ring when it has space (the caller
    /// places the returned operation there), into the backlog otherwise.
    /// Never blocks and never fails: overflow is absorbed.
    pub fn submit(&mut self, op: SubmitOp, ring_has_space: bool) -> (to_ring: Option<SubmitOp>)
        requires
            old(self).inv(),
        ensures
            final(self).inv(),
            ring_has_space ==> to_ring == Some(op) && *final(self) == *old(self),
            !ring_has_space ==> {
                &&& to_ring is None
                &&& final(self).pending() == old(self).pending().push(op)
                &&& final(self).overflowed() == old(self).overflowed().push(op)
                &&& final(self).replayed_ops() == old(self).replayed_ops()
            },
    {
        if ring_has_space {
            Some(op)
        } else {
            self.backlog.push_back(op);
            self.enqueued = Ghost(self.enqueued@.push(op));
            proof {
                assert(self.inv()) by {
                    assert(self.overflowed() =~= self.replayed_ops() + self.pending());
                }
            }
            None
        }
    }

    /// Take the oldest backlogged operation for replay onto the ring, if any.
    pub fn next_replay(&mut self) -> (op: Option<SubmitOp>)
        requires
            old(self).inv(),
        ensures
            final(self).inv(),
            old(self).pending().len() == 0 ==> {
                &&& op is None
                &&& final(self).pending() == old(self).pending()
                &&& final(self).overflowed() == old(self).overflowed()
                &&& final(self).replayed_ops() == old(self).replayed_ops()
            },
            old(self).pending().len() > 0 ==> {
                &&& op == Some(old(self).pending()[0])
                &&& final(self).pending() == old(self).pending().drop_first()
                &&& final(self).replayed_ops() == old(self).replayed_ops().push(
                    old(self).pending()[0],
                )
                &&& final(self).overflowed() == old(self).overflowed()
            },
    {
        let popped = self.backlog.pop_front();
        match popped {
            Some(op) => {
                self.replayed = Ghost(self.replayed@.push(op));
                proof {
                    assert(old(self).pending() =~= seq![op] + self.pending());
                    assert(self.inv()) by {
                        assert(self.overflowed() =~= self.replayed_ops() + self.pending());
                    }
                    assert(self.pending() =~= old(self).pending().drop_first());
                }
                Some(op)
            }
            None => None,
        }
    }

    /// Whether nothing waits in the backlog.
    pub fn backlog_is_empty(&self) -> (r: bool)
        ensures
            r == (self.pending().len() == 0),
    {
        self.backlog.len() == 0
    }
}

/// The decision of one iteration of the pre-wait drain loop: drain the
/// backlog into the submission ring as far as space allows, but stop once the
/// completion ring could no longer take the results, and wait for ring space
/// rather than drop anything.
pub fn drain_step(cq_full: bool, sq_full: bool, backlog_empty: bool) -> (d: DrainStep)
    ensures
        d == (if cq_full || backlog_empty {
            DrainStep::Stop
        } else if sq_full {
            DrainStep::WaitForRing
        } else {
            DrainStep::Replay
        }),
{
    if cq_full || backlog_empty {
        DrainStep::Stop
    } else if sq_full {
        DrainStep::WaitForRing
    } else {
        DrainStep::Replay
    }
}

/// Law: the backlog loses nothing and keeps order — at every instant the
/// full sequence of operations the ring ever refused is the sequence already
/// replayed onto the ring followed, in order, by the sequence still waiting;
/// in particular what was replayed is a prefix of what overflowed.
pub proof fn lemma_backlog_no_loss(e: &Engine)
    requires
        e.inv(),
    ensures
        e.overflowed() == e.replayed_ops() + e.pending(),
        e.replayed_ops().is_prefix_of(e.overflowed()),
        e.overflowed().len() == e.replayed_ops().len() + e.pending().len(),
{
    assert(e.replayed_ops() =~= e.overflowed().subrange(0, e.replayed_ops().len() as int));
}

} // verus!
