//! A bounded free list of byte buffers recycled between pipeline stages.
//!
//! The producer takes a buffer for each entry's raw bytes; after a worker has
//! drained it, the buffer comes back for reuse. The pool never retains more
//! than its configured bound, so the buffers kept alive across a run are
//! bounded by that constant plus however many are out on loan — never by the
//! number of entries in the archive.

use vstd::prelude::*;

verus! {

/// A bounded pool of reusable byte buffers.
pub struct BufferPool {
    free: Vec<Vec<u8>>,
    bound: usize,
    loaned: Ghost<nat>,
}

impl BufferPool {
    /// How many buffers the pool is retaining.
    pub closed spec fn stored(&self) -> nat {
        self.free@.len()
    }

    /// The most buffers the pool will ever retain.
    pub closed spec fn bound(&self) -> nat {
        self.bound as nat
    }

    /// The pool never retains more than its bound.
    pub closed spec fn wf(&self) -> bool {
        self.free@.len() <= self.bound
    }

    /// How many buffers this pool has handed out and not yet taken back.
    pub closed spec fn loans(&self) -> nat {
        self.loaned@
    }

    /// How many buffers this pool keeps alive: retained plus out on loan.
    pub closed spec fn live(&self) -> nat {
        self.stored() + self.loaned@
    }

    pub fn new(bound: usize) -> (p: BufferPool)
        ensures
            p.wf(),
            p.bound() == bound,
            p.stored() == 0,
            p.loans() == 0,
    {
        BufferPool { free: Vec::new(), bound, loaned: Ghost(0) }
    }

    /// Hand out a buffer of exactly `size` bytes, reusing a retained one when
    /// available and allocating fresh only when the pool is empty — so a loan
    /// grows `live` only when nothing was retained.
    pub fn acquire(&mut self, size: usize) -> (buf: Vec<u8>)
        requires
            old(self).wf(),
        ensures
            final(self).wf(),
            final(self).bound() == old(self).bound(),
            final(self).loans() == old(self).loans() + 1,
            final(self).live() <= old(self).live() + 1,
            old(self).stored() > 0 ==> final(self).live() == old(self).live()
                && final(self).stored() == old(self).stored() - 1,
            old(self).stored() == 0 ==> final(self).stored() == 0,
            buf@.len() == size,
    {
        proof {
            self.loaned@ = self.loaned@ + 1;
        }
        match self.free.pop() {
            Some(mut b) => {
                b.resize(size, 0u8);
                b
            },
            None => vec![0u8; size],
        }
    }

    /// Take a buffer back; retain it for reuse unless the pool is full, in
    /// which case it is dropped.
    pub fn release(&mut self, buf: Vec<u8>)
        requires
            old(self).wf(),
            old(self).loans() >= 1,
        ensures
            final(self).wf(),
            final(self).bound() == old(self).bound(),
            final(self).loans() == old(self).loans() - 1,
            final(self).live() <= old(self).live(),
            old(self).stored() < old(self).bound() ==> final(self).stored() == old(self).stored()
                + 1,
            old(self).stored() >= old(self).bound() ==> final(self).stored() == old(
                self,
            ).stored(),
    {
        proof {
            self.loaned@ = (self.loaned@ - 1) as nat;
        }
        if self.free.len() < self.bound {
            self.free.push(buf);
        }
    }

    /// How many buffers the pool is retaining.
    pub fn stored_len(&self) -> (n: usize)
        ensures
            n == self.stored(),
    {
        self.free.len()
    }
}

/// Law: a well-formed pool keeps alive at most its bound plus the buffers out
/// on loan — with a fixed worker count and the pool sized to it, peak live
/// buffers are a constant independent of how many entries the archive has.
pub proof fn lemma_pool_live_bound(p: BufferPool, loans: nat)
    requires
        p.wf(),
        p.loans() <= loans,
    ensures
        p.live() <= p.bound() + loans,
{
}

} // verus!
