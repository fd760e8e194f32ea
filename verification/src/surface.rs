//! Accounting for the GPU surface borrow/recycle handshake.
//!
//! A surface is owned by the engine's swap chain and lent — by ownership
//! transfer, never shared — to the GUI thread for the duration of one blit.
//! The ledger tracks where every surface is, so that the chain's surface
//! count is conserved: no leak, no double-free, and never more than one
//! surface lent out, since only one render pass is in flight at a time.

use vstd::prelude::*;

verus! {

/// Where the swap chain's surfaces are: still in the chain, or lent across
/// the thread boundary.
pub struct SurfaceLedger {
    /// Surfaces available in the swap chain.
    available: usize,
    /// Surfaces currently lent to the GUI thread: zero or one.
    lent: usize,
    /// Surfaces the chain was created with, less any reported lost.
    capacity: usize,
}

impl SurfaceLedger {
    /// Conservation: every surface is either in the chain or lent out, and
    /// at most one is lent.
    #[verifier::type_invariant]
    pub closed spec fn wf(&self) -> bool {
        self.available + self.lent == self.capacity && self.lent <= 1
    }

    /// Surfaces available in the swap chain.
    pub closed spec fn available(&self) -> int {
        self.available as int
    }

    /// Surfaces currently lent out: zero or one.
    pub closed spec fn lent(&self) -> int {
        self.lent as int
    }

    /// Surfaces accounted for in total.
    pub open spec fn surfaces(&self) -> int {
        self.available() + self.lent()
    }

    /// A ledger for a chain created with `capacity` surfaces, all in the
    /// chain.
    pub fn new(capacity: usize) -> (r: Self)
        ensures
            r.available() == capacity,
            r.lent() == 0,
    {
        SurfaceLedger { available: capacity, lent: 0, capacity }
    }

    /// Number of surfaces available in the chain.
    pub fn available_count(&self) -> (r: usize)
        ensures
            r == self.available(),
    {
        self.available
    }

    /// Whether a surface is currently lent out.
    pub fn is_lent(&self) -> (r: bool)
        ensures
            r == (self.lent() == 1),
    {
        proof {
            use_type_invariant(self);
        }
        self.lent == 1
    }

    /// Records a borrow attempt. Granted exactly when the chain has a
    /// surface to lend; a miss (the engine has not produced a frame yet)
    /// changes nothing and is not an error — the frame is simply skipped.
    pub fn borrow(&mut self) -> (granted: bool)
        requires
            old(self).lent() == 0,
        ensures
            granted == (old(self).available() > 0),
            granted ==> final(self).available() == old(self).available() - 1,
            granted ==> final(self).lent() == 1,
            !granted ==> *final(self) == *old(self),
            final(self).surfaces() == old(self).surfaces(),
    {
        proof {
            use_type_invariant(&*self);
        }
        if self.available > 0 {
            *self = SurfaceLedger {
                available: self.available - 1,
                lent: 1,
                capacity: self.capacity,
            };
            true
        } else {
            false
        }
    }

    /// Records the return of the lent surface. `returned` says whether the
    /// borrower handed the surface back for recycling; a surface reported
    /// lost (a failed texture round-trip) leaves the accounted total one
    /// smaller, never double-counted.
    pub fn recycle(&mut self, returned: bool)
        requires
            old(self).lent() == 1,
        ensures
            final(self).lent() == 0,
            returned ==> final(self).available() == old(self).available() + 1,
            !returned ==> final(self).available() == old(self).available(),
    {
        proof {
            use_type_invariant(&*self);
        }
        if returned {
            *self = SurfaceLedger {
                available: self.available + 1,
                lent: 0,
                capacity: self.capacity,
            };
        } else {
            *self = SurfaceLedger {
                available: self.available,
                lent: 0,
                capacity: self.capacity - 1,
            };
        }
    }
}

/// Law: a borrow/recycle round trip conserves the swap chain's surfaces —
/// every surface successfully borrowed and then returned leaves the ledger
/// exactly as it was, with nothing lent and nothing leaked.
pub proof fn lemma_borrow_recycle_round_trip(before: SurfaceLedger, mid: SurfaceLedger, after: SurfaceLedger)
    requires
        before.lent() == 0,
        before.available() > 0,
        mid.available() == before.available() - 1,
        mid.lent() == 1,
        after.lent() == 0,
        after.available() == mid.available() + 1,
    ensures
        after.available() == before.available(),
        after.surfaces() == before.surfaces(),
{
}

} // verus!
