//! The receive-buffer pool.
//!
//! Buffers are fixed-size blocks addressed by a stable integer slot; the pool
//! hands a slot out immediately before a receive operation is submitted and
//! takes it back exactly once, when that operation's completion is processed.
//! Slots may be released in any order.  The pool tracks ownership only: the
//! byte storage itself sits beside the ring, outside the verified logic,
//! indexed by these slots, since the kernel writes into it through raw
//! pointers that verified code cannot hold.
//!
//! Allocation is a free list over the slots created so far, growing by one
//! fresh slot whenever the free list is empty.  A slot is 16 bits wide — the
//! width of the slot field in the ring's correlation value — so the pool can
//! hold at most 65536 slots.

use vstd::prelude::*;

verus! {

/// Size in bytes of each receive buffer a slot stands for.
pub const BUF_LEN: usize = 1024;

/// Largest number of slots the 16-bit slot field can address.
pub const MAX_SLOTS: usize = 0x10000;

pub struct BufferPool {
    /// Slots created so far; every slot ever handed out is below this.
    n_slots: usize,
    /// Slots created but not currently allocated.
    free: Vec<u16>,
}

impl BufferPool {
    /// Well-formedness: the free list names each created slot at most once.
    pub closed spec fn wf(self) -> bool {
        &&& self.n_slots <= MAX_SLOTS
        &&& self.free@.no_duplicates()
        &&& forall|i: int|
            0 <= i < self.free@.len() ==> (self.free@[i] as int) < self.n_slots as int
    }

    /// A slot is allocated when it has been created and is not on the free
    /// list.
    pub closed spec fn is_alloc(self, s: u16) -> bool {
        (s as int) < self.n_slots as int && !self.free@.contains(s)
    }

    /// The allocated slots, as a set.
    pub open spec fn allocated(self) -> Set<u16> {
        Set::new(|s: u16| self.is_alloc(s))
    }

    /// Number of slots created so far.
    pub closed spec fn slot_count(self) -> int {
        self.n_slots as int
    }

    /// Allocation can proceed: either a slot is free for reuse or a fresh one
    /// can still be created.
    pub closed spec fn can_alloc(self) -> bool {
        self.free@.len() > 0 || self.n_slots < MAX_SLOTS
    }

    /// The slot the next allocation will return.
    pub closed spec fn next_slot(self) -> u16 {
        if self.free@.len() > 0 {
            self.free@.last()
        } else {
            self.n_slots as u16
        }
    }

    /// An empty pool: no slots created, none allocated.
    pub fn new() -> (p: BufferPool)
        ensures
            p.wf(),
            p.slot_count() == 0,
            forall|s: u16| !p.is_alloc(s),
    {
        BufferPool { n_slots: 0, free: Vec::new() }
    }

    /// A pool pre-sized with `n` slots, all free.
    pub fn with_capacity(n: usize) -> (p: BufferPool)
        requires
            n <= MAX_SLOTS,
        ensures
            p.wf(),
            p.slot_count() == n,
            forall|s: u16| !p.is_alloc(s),
            p.can_alloc(),
    {
        let mut free: Vec<u16> = Vec::new();
        let mut i: usize = 0;
        while i < n
            invariant
                i <= n,
                n <= MAX_SLOTS,
                free@.len() == i,
                forall|j: int| 0 <= j < i ==> free@[j] == j as u16,
            decreases n - i,
        {
            free.push(i as u16);
            i = i + 1;
        }
        proof {
            assert forall|j: int, k: int| 0 <= j < k < free@.len() implies free@[j] != free@[k] by {
                assert(free@[j] == j as u16 && free@[k] == k as u16);
            }
            assert(free@.no_duplicates());
            assert forall|s: u16| (s as int) < n as int implies free@.contains(s) by {
                assert(free@[s as int] == s);
            }
        }
        BufferPool { n_slots: n, free }
    }

    /// Whether `slot` is currently allocated.
    pub fn is_allocated(&self, slot: u16) -> (r: bool)
        ensures
            r == self.is_alloc(slot),
    {
        if (slot as usize) < self.n_slots {
            let mut i: usize = 0;
            while i < self.free.len()
                invariant
                    i <= self.free@.len(),
                    forall|j: int| 0 <= j < i ==> self.free@[j] != slot,
                decreases self.free@.len() - i,
            {
                if self.free[i] == slot {
                    return false;
                }
                i = i + 1;
            }
            true
        } else {
            false
        }
    }

    /// Whether an allocation can proceed.
    pub fn can_allocate(&self) -> (r: bool)
        ensures
            r == self.can_alloc(),
    {
        self.free.len() > 0 || self.n_slots < MAX_SLOTS
    }

    /// Hand out a slot no outstanding receive owns: the most recently freed
    /// one, or a fresh slot if none is free (the pool grows).
    pub fn allocate(&mut self) -> (slot: u16)
        requires
            old(self).wf(),
            old(self).can_alloc(),
        ensures
            final(self).wf(),
            slot == old(self).next_slot(),
            !old(self).is_alloc(slot),
            final(self).is_alloc(slot),
            forall|s: u16| final(self).is_alloc(s) <==> (old(self).is_alloc(s) || s == slot),
            final(self).slot_count() >= old(self).slot_count(),
            final(self).can_alloc() || final(self).slot_count() == MAX_SLOTS,
    {
        let popped = self.free.pop();
        match popped {
            Some(s) => {
                proof {
                    let pre = old(self).free@;
                    assert(pre.no_duplicates());
                    assert(s == pre.last());
                    assert(!pre.drop_last().contains(s)) by {
                        if pre.drop_last().contains(s) {
                            let i = choose|i: int|
                                0 <= i < pre.drop_last().len() && pre.drop_last()[i] == s;
                            assert(pre[i] == s && pre[pre.len() - 1] == s);
                        }
                    }
                    assert forall|x: u16|
                        self.free@.contains(x) <==> (pre.contains(x) && x != s) by {
                        if self.free@.contains(x) {
                            let i = choose|i: int|
                                0 <= i < self.free@.len() && self.free@[i] == x;
                            assert(pre[i] == x);
                        }
                        if pre.contains(x) && x != s {
                            let i = choose|i: int| 0 <= i < pre.len() && pre[i] == x;
                            assert(i < pre.len() - 1);
                            assert(self.free@[i] == x);
                        }
                    }
                }
                s
            }
            None => {
                let s = self.n_slots as u16;
                self.n_slots = self.n_slots + 1;
                s
            }
        }
    }

    /// Return `slot` to the pool.  Demands that the slot is currently
    /// allocated, so each allocation is released at most once.
    pub fn release(&mut self, slot: u16)
        requires
            old(self).wf(),
            old(self).is_alloc(slot),
        ensures
            final(self).wf(),
            !final(self).is_alloc(slot),
            forall|s: u16| final(self).is_alloc(s) <==> (old(self).is_alloc(s) && s != slot),
            final(self).slot_count() == old(self).slot_count(),
            final(self).can_alloc(),
    {
        self.free.push(slot);
        proof {
            let pre = old(self).free@;
            assert forall|x: u16| self.free@.contains(x) <==> (pre.contains(x) || x == slot) by {
                if self.free@.contains(x) {
                    let i = choose|i: int| 0 <= i < self.free@.len() && self.free@[i] == x;
                    if i < pre.len() {
                        assert(pre[i] == x);
                    }
                }
                if pre.contains(x) {
                    let i = choose|i: int| 0 <= i < pre.len() && pre[i] == x;
                    assert(self.free@[i] == x);
                }
                assert(self.free@[pre.len() as int] == slot);
            }
        }
    }
}

/// Law: slots are handed out exclusively — an allocation never returns a slot
/// that is already allocated, and afterwards exactly that one slot has been
/// added to the allocated set.
pub proof fn lemma_allocate_exclusive(pre: BufferPool, post: BufferPool, slot: u16)
    requires
        pre.wf(),
        !pre.is_alloc(slot),
        forall|s: u16| post.is_alloc(s) <==> (pre.is_alloc(s) || s == slot),
    ensures
        !pre.allocated().contains(slot),
        post.allocated() == pre.allocated().insert(slot),
{
    assert(post.allocated() =~= pre.allocated().insert(slot));
}

} // verus!
