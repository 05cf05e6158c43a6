//! Nonce assignment for the single relayer identity.

use vstd::prelude::*;

verus! {

/// Hands out the relayer's transaction nonces, one at a time, in strictly
/// increasing order. Callers serialize access to it (one owner, or a lock).
pub struct NonceAllocator {
    /// The last nonce handed out, or the ledger's nonce for the key at startup.
    pub last: u64,
    /// Every nonce handed out so far, in order of assignment.
    pub issued: Ghost<Seq<u64>>,
}

impl NonceAllocator {
    /// Every nonce handed out is above the previous one and at most `last`.
    pub open spec fn wf(&self) -> bool {
        &&& forall|i: int, j: int|
            0 <= i < j < self.issued@.len() ==> #[trigger] self.issued@[i] < #[trigger] self.issued@[j]
        &&& forall|i: int| 0 <= i < self.issued@.len() ==> #[trigger] self.issued@[i] <= self.last
    }

    /// Starts after `current`, the nonce that the ledger last recorded for the key.
    pub fn new(current: u64) -> (r: NonceAllocator)
        ensures
            r.wf(),
            r.last == current,
            r.issued@ == Seq::<u64>::empty(),
    {
        NonceAllocator { last: current, issued: Ghost(Seq::empty()) }
    }

    /// Assigns the next nonce, or `None` once `u64::MAX` has been handed out.
    pub fn assign(&mut self) -> (r: Option<u64>)
        requires
            old(self).wf(),
        ensures
            final(self).wf(),
            old(self).last < u64::MAX ==> r == Some((old(self).last + 1) as u64),
            old(self).last == u64::MAX ==> r.is_none(),
            r matches Some(n) ==> final(self).last == n && final(self).issued@ == old(
                self,
            ).issued@.push(n),
            r.is_none() ==> *final(self) == *old(self),
    {
        if self.last == u64::MAX {
            return None;
        }
        let n: u64 = self.last + 1;
        self.last = n;
        self.issued = Ghost(self.issued@.push(n));
        Some(n)
    }
}

/// Nonces handed out by one allocator are pairwise distinct and, in the order
/// in which they were assigned, strictly increasing.
pub proof fn issued_nonces_strictly_increase(a: &NonceAllocator, i: int, j: int)
    requires
        a.wf(),
        0 <= i < j < a.issued@.len(),
    ensures
        a.issued@[i] < a.issued@[j],
        a.issued@[i] != a.issued@[j],
{
}

} // verus!
