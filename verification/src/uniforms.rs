//! Per-frame uniform sub-allocation accounting.
//!
//! One pool per uniform kind. Every frame draws one fresh handle from each
//! pool it needs, so no two frames ever reference the same sub-allocation:
//! a handle is the count of allocations made before it, and is therefore
//! never handed out twice. The fence discipline of the frame synchronizer
//! bounds how many handles are alive on the device at once.

use vstd::prelude::*;

verus! {

/// A growing pool of frame-scoped uniform values of one kind.
pub struct UniformPool<T> {
    entries: Vec<T>,
}

impl<T> UniformPool<T> {
    /// Every value ever allocated, in allocation order.
    pub closed spec fn spec_entries(&self) -> Seq<T> {
        self.entries@
    }

    /// An empty pool.
    pub fn new() -> (p: UniformPool<T>)
        ensures
            p.spec_entries() == Seq::<T>::empty(),
    {
        let p = UniformPool { entries: Vec::new() };
        proof {
            assert(p.spec_entries() =~= Seq::<T>::empty());
        }
        p
    }

    /// Allocates a fresh sub-allocation holding `value` and returns its
    /// handle. The handle equals the number of allocations made before it,
    /// so distinct calls always return distinct handles and never alias
    /// older sub-allocations.
    pub fn next(&mut self, value: T) -> (h: usize)
        ensures
            h == old(self).spec_entries().len(),
            final(self).spec_entries() == old(self).spec_entries().push(value),
    {
        let h = self.entries.len();
        self.entries.push(value);
        h
    }

    /// How many sub-allocations the pool has handed out.
    pub fn len(&self) -> (n: usize)
        ensures
            n == self.spec_entries().len(),
    {
        self.entries.len()
    }

    /// The value stored under a handle.
    pub fn get(&self, h: usize) -> (v: &T)
        requires
            h < self.spec_entries().len(),
        ensures
            *v == self.spec_entries()[h as int],
    {
        &self.entries[h]
    }
}

} // verus!
