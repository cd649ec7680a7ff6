//! The connection dispatch state machine.
//!
//! A connection has no persistent object: its identity is its file
//! descriptor, and its state is implicit in which operations are outstanding
//! for it.  The reactor interprets each completion through its decoded tag
//! and answers with the operations to submit next:
//!
//! - a completed `Accept` yields a `Receive` for the new connection, plus a
//!   fresh `Accept` exactly when the completion's continuation flag is absent
//!   (the armed accept is persistent and keeps yielding completions while the
//!   flag is present);
//! - a completed `Receive` releases its buffer slot, then yields a `Send`;
//!   a zero-length result means the peer closed, and a `Close` is submitted
//!   as well (before the `Send`, which is still issued, mirroring the
//!   responder's deliberate choice to answer even a closing peer);
//! - a completed `Send` yields the next `Receive` on the same connection,
//!   with a freshly allocated buffer slot;
//! - a completed `Close` is terminal;
//! - a negative result is a per-operation failure: the buffer slot of a
//!   failed `Receive` is still released, no further operation is submitted
//!   for that connection, and the loop is otherwise unaffected.
//!
//! The reactor owns the buffer pool and a ghost map of the outstanding
//! receive operations, keyed by buffer slot; its invariant ties the two
//! together, which is the slot-exclusivity property: allocated slots and
//! outstanding receives correspond one to one.

use vstd::prelude::*;

use crate::pool::BufferPool;
use crate::tag::{decode, decode_spec, OpTag, SubmitOp};

verus! {

pub struct Reactor {
    pool: BufferPool,
    /// The outstanding receive operations: buffer slot to connection fd.
    recvs: Ghost<Map<u16, u32>>,
}

/// The operations a successful accept completion yields: a receive for the
/// new connection, preceded by a re-arming accept exactly when the
/// continuation flag is absent.
pub open spec fn accept_ops(fd: u32, slot: u16, more: bool) -> Seq<SubmitOp> {
    if more {
        seq![SubmitOp::Recv { fd, slot }]
    } else {
        seq![SubmitOp::Accept, SubmitOp::Recv { fd, slot }]
    }
}

/// The operations a receive completion yields: a close first when the peer
/// closed (a zero-length read), then the canned-response send either way.
pub open spec fn receive_ops(fd: u32, peer_closed: bool) -> Seq<SubmitOp> {
    if peer_closed {
        seq![SubmitOp::Close { fd }, SubmitOp::Send { fd }]
    } else {
        seq![SubmitOp::Send { fd }]
    }
}

impl Reactor {
    /// Whether `slot` is owned by an outstanding receive.
    pub closed spec fn slot_allocated(self, s: u16) -> bool {
        self.pool.is_alloc(s)
    }

    /// The outstanding receive operations, as slot-to-fd pairs.
    pub closed spec fn outstanding(self) -> Map<u16, u32> {
        self.recvs@
    }

    /// The slot the next issued receive will own.
    pub closed spec fn next_slot(self) -> u16 {
        self.pool.next_slot()
    }

    /// Whether a fresh receive can be issued (a buffer slot is free for
    /// reuse, or the pool can still grow within the 16-bit slot space).
    pub closed spec fn can_receive_spec(self) -> bool {
        self.pool.can_alloc()
    }

    /// The reactor invariant: the pool is well formed and the allocated
    /// slots are exactly the slots of outstanding receive operations.
    pub closed spec fn inv(self) -> bool {
        &&& self.pool.wf()
        &&& forall|s: u16| self.outstanding().dom().contains(s) <==> self.pool.is_alloc(s)
    }

    /// A reactor over a buffer pool pre-sized with `capacity` slots.
    pub fn with_capacity(capacity: usize) -> (r: Reactor)
        requires
            capacity <= crate::pool::MAX_SLOTS,
        ensures
            r.inv(),
            r.outstanding() == Map::<u16, u32>::empty(),
            forall|s: u16| !r.slot_allocated(s),
            r.can_receive_spec(),
    {
        let r = Reactor { pool: BufferPool::with_capacity(capacity), recvs: Ghost(Map::empty()) };
        proof {
            assert forall|s: u16| !r.outstanding().dom().contains(s) by {
                assert(r.outstanding() == Map::<u16, u32>::empty());
            }
        }
        r
    }

    /// Whether `slot` is owned by an outstanding receive.
    pub fn slot_is_allocated(&self, slot: u16) -> (r: bool)
        ensures
            r == self.slot_allocated(slot),
    {
        self.pool.is_allocated(slot)
    }

    /// Whether a fresh receive can be issued.
    pub fn can_receive(&self) -> (r: bool)
        ensures
            r == self.can_receive_spec(),
    {
        self.pool.can_allocate()
    }

    /// Release the slot of a completed (or failed) receive.
    fn release_slot(&mut self, slot: u16)
        requires
            old(self).inv(),
            old(self).slot_allocated(slot),
        ensures
            final(self).inv(),
            final(self).outstanding() == old(self).outstanding().remove(slot),
            forall|s: u16|
                final(self).slot_allocated(s) <==> (old(self).slot_allocated(s) && s != slot),
            final(self).can_receive_spec(),
    {
        self.pool.release(slot);
        self.recvs = Ghost(self.recvs@.remove(slot));
    }

    /// Allocate a fresh slot for a receive on connection `fd` and record the
    /// receive as outstanding.
    fn issue_slot(&mut self, fd: u32) -> (slot: u16)
        requires
            old(self).inv(),
            old(self).can_receive_spec(),
        ensures
            final(self).inv(),
            slot == old(self).next_slot(),
            !old(self).slot_allocated(slot),
            final(self).outstanding() == old(self).outstanding().insert(slot, fd),
            forall|s: u16|
                final(self).slot_allocated(s) <==> (old(self).slot_allocated(s) || s == slot),
    {
        let slot = self.pool.allocate();
        self.recvs = Ghost(self.recvs@.insert(slot, fd));
        slot
    }

    /// React to one completion: `user_data` is the correlation value the
    /// operation carried, `result` the kernel's result code, and `more` the
    /// continuation flag (meaningful on accept completions).  Returns the
    /// operations to submit next, in order.
    ///
    /// The caller vouches that a receive completion names a slot that is
    /// still allocated (the ring returns each submitted operation exactly
    /// once), and that a buffer slot can be had where a new receive is due.
    pub fn on_completion(&mut self, user_data: u64, result: i32, more: bool) -> (ops: Vec<
        SubmitOp,
    >)
        requires
            old(self).inv(),
            decode_spec(user_data) matches OpTag::Recv { fd, slot } ==> old(self).slot_allocated(
                slot,
            ),
            result >= 0 && (decode_spec(user_data) is Accept || decode_spec(user_data) is Send)
                ==> old(self).can_receive_spec(),
        ensures
            final(self).inv(),
            // A failed accept, send or close changes nothing.
            result < 0 && !(decode_spec(user_data) is Recv) ==> {
                &&& ops@ == Seq::<SubmitOp>::empty()
                &&& final(self).outstanding() == old(self).outstanding()
                &&& forall|s: u16| final(self).slot_allocated(s) == old(self).slot_allocated(s)
            },
            // A failed receive still releases its slot; the connection is
            // abandoned: nothing further is submitted.
            decode_spec(user_data) matches OpTag::Recv { fd, slot } ==> result < 0 ==> {
                &&& ops@ == Seq::<SubmitOp>::empty()
                &&& final(self).outstanding() == old(self).outstanding().remove(slot)
                &&& forall|s: u16|
                    final(self).slot_allocated(s) <==> (old(self).slot_allocated(s) && s != slot)
            },
            // A new connection: one receive, a re-arm exactly when the
            // continuation flag is absent, and one fresh slot allocated.
            result >= 0 && decode_spec(user_data) is Accept ==> {
                &&& ops@ == accept_ops(result as u32, old(self).next_slot(), more)
                &&& final(self).outstanding() == old(self).outstanding().insert(
                    old(self).next_slot(),
                    result as u32,
                )
                &&& !old(self).slot_allocated(old(self).next_slot())
                &&& forall|s: u16|
                    final(self).slot_allocated(s) <==> (old(self).slot_allocated(s) || s == old(
                        self,
                    ).next_slot())
            },
            // A completed receive: its slot is released exactly once; the
            // peer closing (a zero-length read) yields exactly one close.
            decode_spec(user_data) matches OpTag::Recv { fd, slot } ==> result >= 0 ==> {
                &&& ops@ == receive_ops(fd, result == 0)
                &&& final(self).outstanding() == old(self).outstanding().remove(slot)
                &&& forall|s: u16|
                    final(self).slot_allocated(s) <==> (old(self).slot_allocated(s) && s != slot)
            },
            // A completed send: the next receive on the same connection.
            decode_spec(user_data) matches OpTag::Send { fd } ==> result >= 0 ==> {
                &&& ops@ == seq![
                    SubmitOp::Recv { fd, slot: old(self).next_slot() },
                ]
                &&& final(self).outstanding() == old(self).outstanding().insert(
                    old(self).next_slot(),
                    fd,
                )
                &&& !old(self).slot_allocated(old(self).next_slot())
                &&& forall|s: u16|
                    final(self).slot_allocated(s) <==> (old(self).slot_allocated(s) || s == old(
                        self,
                    ).next_slot())
            },
            // A completed close is terminal.
            result >= 0 && decode_spec(user_data) is Close ==> {
                &&& ops@ == Seq::<SubmitOp>::empty()
                &&& final(self).outstanding() == old(self).outstanding()
                &&& forall|s: u16| final(self).slot_allocated(s) == old(self).slot_allocated(s)
            },
    {
        let t = decode(user_data);
        if result < 0 {
            if let OpTag::Recv { fd: _, slot } = t {
                self.release_slot(slot);
            }
            let ops: Vec<SubmitOp> = Vec::new();
            proof {
                assert(ops@ =~= Seq::<SubmitOp>::empty());
            }
            ops
        } else {
            match t {
                OpTag::Accept => {
                    let conn_fd = result as u32;
                    let mut ops: Vec<SubmitOp> = Vec::new();
                    if !more {
                        ops.push(SubmitOp::Accept);
                    }
                    let slot = self.issue_slot(conn_fd);
                    ops.push(SubmitOp::Recv { fd: conn_fd, slot });
                    proof {
                        assert(ops@ =~= accept_ops(conn_fd, slot, more));
                    }
                    ops
                }
                OpTag::Recv { fd, slot } => {
                    self.release_slot(slot);
                    let mut ops: Vec<SubmitOp> = Vec::new();
                    if result == 0 {
                        ops.push(SubmitOp::Close { fd });
                    }
                    ops.push(SubmitOp::Send { fd });
                    proof {
                        assert(ops@ =~= receive_ops(fd, result == 0));
                    }
                    ops
                }
                OpTag::Send { fd } => {
                    let slot = self.issue_slot(fd);
                    let mut ops: Vec<SubmitOp> = Vec::new();
                    ops.push(SubmitOp::Recv { fd, slot });
                    proof {
                        assert(ops@ =~= seq![SubmitOp::Recv { fd, slot }]);
                    }
                    ops
                }
                OpTag::Close => {
                    let ops: Vec<SubmitOp> = Vec::new();
                    proof {
                        assert(ops@ =~= Seq::<SubmitOp>::empty());
                    }
                    ops
                }
            }
        }
    }
}

/// How many operations of `ops` satisfy `p`.
pub open spec fn count_matching(ops: Seq<SubmitOp>, p: spec_fn(SubmitOp) -> bool) -> nat
    decreases ops.len(),
{
    if ops.len() == 0 {
        0
    } else {
        (if p(ops[0]) {
            1nat
        } else {
            0nat
        }) + count_matching(ops.drop_first(), p)
    }
}

/// Counting distributes over concatenation of operation sequences.
pub proof fn lemma_count_concat(a: Seq<SubmitOp>, b: Seq<SubmitOp>, p: spec_fn(SubmitOp) -> bool)
    ensures
        count_matching(a + b, p) == count_matching(a, p) + count_matching(b, p),
    decreases a.len(),
{
    if a.len() == 0 {
        assert(a + b =~= b);
    } else {
        assert((a + b).drop_first() =~= a.drop_first() + b);
        assert((a + b)[0] == a[0]);
        lemma_count_concat(a.drop_first(), b, p);
    }
}

/// Law: for a single accept completion, exactly one receive is issued, and
/// a re-arming accept is issued exactly when the continuation flag is
/// absent — never otherwise.
pub proof fn lemma_accept_rearm(fd: u32, slot: u16, more: bool)
    ensures
        count_matching(accept_ops(fd, slot, more), (|op: SubmitOp| op is Recv)) == 1,
        count_matching(accept_ops(fd, slot, more), (|op: SubmitOp| op is Accept)) == (if more {
            0nat
        } else {
            1nat
        }),
{
    reveal_with_fuel(count_matching, 4);
    let ops = accept_ops(fd, slot, more);
    if more {
        assert(ops.drop_first() =~= Seq::<SubmitOp>::empty());
    } else {
        assert(ops.drop_first() =~= seq![SubmitOp::Recv { fd, slot }]);
        assert(ops.drop_first().drop_first() =~= Seq::<SubmitOp>::empty());
    }
}

/// The operations of a whole sequence of accept completions, each given as
/// the new connection's fd, the buffer slot its receive gets, and the
/// continuation flag of the completion.
pub open spec fn accept_plan_all(cs: Seq<(u32, u16, bool)>) -> Seq<SubmitOp>
    decreases cs.len(),
{
    if cs.len() == 0 {
        Seq::empty()
    } else {
        accept_ops(cs[0].0, cs[0].1, cs[0].2) + accept_plan_all(cs.drop_first())
    }
}

/// How many completions of a sequence lack the continuation flag.
pub open spec fn count_absent_flags(cs: Seq<(u32, u16, bool)>) -> nat
    decreases cs.len(),
{
    if cs.len() == 0 {
        0
    } else {
        (if cs[0].2 {
            0nat
        } else {
            1nat
        }) + count_absent_flags(cs.drop_first())
    }
}

/// Law: across any sequence of incoming connections, every connection
/// yields exactly one receive submission, and exactly one re-arming accept
/// is submitted per completion whose continuation flag is absent, zero
/// otherwise.
pub proof fn lemma_accept_rearm_sequence(cs: Seq<(u32, u16, bool)>)
    ensures
        count_matching(accept_plan_all(cs), (|op: SubmitOp| op is Recv)) == cs.len(),
        count_matching(accept_plan_all(cs), (|op: SubmitOp| op is Accept)) == count_absent_flags(
            cs,
        ),
    decreases cs.len(),
{
    if cs.len() > 0 {
        lemma_accept_rearm(cs[0].0, cs[0].1, cs[0].2);
        lemma_accept_rearm_sequence(cs.drop_first());
        lemma_count_concat(
            accept_ops(cs[0].0, cs[0].1, cs[0].2),
            accept_plan_all(cs.drop_first()),
            (|op: SubmitOp| op is Recv),
        );
        lemma_count_concat(
            accept_ops(cs[0].0, cs[0].1, cs[0].2),
            accept_plan_all(cs.drop_first()),
            (|op: SubmitOp| op is Accept),
        );
    }
}

/// Law: close-once.  The completion of the final receive of a connection —
/// the zero-length read by which the peer closes — yields exactly one close
/// submission; a receive that carried data yields none.  (The one buffer
/// release per receive completion is part of the dispatch contract itself.)
pub proof fn lemma_close_once(fd: u32)
    ensures
        count_matching(receive_ops(fd, true), (|op: SubmitOp| op is Close)) == 1,
        count_matching(receive_ops(fd, false), (|op: SubmitOp| op is Close)) == 0,
{
    reveal_with_fuel(count_matching, 4);
    let closing = receive_ops(fd, true);
    assert(closing.drop_first() =~= seq![SubmitOp::Send { fd }]);
    assert(closing.drop_first().drop_first() =~= Seq::<SubmitOp>::empty());
    assert(receive_ops(fd, false).drop_first() =~= Seq::<SubmitOp>::empty());
}

/// Law: buffer-slot exclusivity.  In any reactor state satisfying the
/// invariant, the slots owned by outstanding receive operations are exactly
/// the allocated slots of the pool — so their numbers are equal, and no slot
/// is owned by two outstanding receives (a map holds each key once).
pub proof fn lemma_slot_exclusivity(r: &Reactor)
    requires
        r.inv(),
    ensures
        r.outstanding().dom() == Set::new(|s: u16| r.slot_allocated(s)),
        r.outstanding().dom().len() == Set::new(|s: u16| r.slot_allocated(s)).len(),
{
    assert(r.outstanding().dom() =~= Set::new(|s: u16| r.slot_allocated(s)));
}

} // verus!
