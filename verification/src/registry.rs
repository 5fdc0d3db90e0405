use vstd::prelude::*;
use std::collections::HashMap;
use crate::TexHandle;

verus! {

broadcast use vstd::std_specs::hash::group_hash_axioms;

/// An index-to-handle table is well formed when its keys are exactly the
/// indices `0 .. len`: entries are only ever added under the next free
/// index, so the table has no gaps and never reuses an index.
pub open spec fn wf_registry(m: Map<usize, TexHandle>) -> bool {
    forall|i: usize| m.dom().contains(i) <==> (i as nat) < m.len()
}

/// Registry of user-added textures: the index (the default texture sits at
/// index 0) mapped to a texture handle that the render system can bind.
#[derive(Debug)]
pub struct TexHandleQueue(pub HashMap<usize, TexHandle>);

impl View for TexHandleQueue {
    type V = Map<usize, TexHandle>;

    open spec fn view(&self) -> Map<usize, TexHandle> {
        self.0@
    }
}

impl TexHandleQueue {
    /// The registry's invariant: indices form the contiguous range `0 .. len`.
    pub open spec fn wf(self) -> bool {
        wf_registry(self@)
    }

    /// A fresh, empty registry; the host application may pre-seed index 0
    /// with its default texture.
    pub fn new() -> (r: Self)
        ensures
            r@ == Map::<usize, TexHandle>::empty(),
            r.wf(),
    {
        let r = TexHandleQueue(HashMap::new());
        proof {
            assert(r@.dom() =~= Set::<usize>::empty());
        }
        r
    }

    /// Number of registered entries; under `wf` this is also the next free
    /// index.
    pub fn count(&self) -> (n: usize)
        ensures
            n as nat == self@.len(),
    {
        self.0.len()
    }

    /// Register `handle` under `index`. The caller supplies the next free
    /// index (the current count), which keeps the no-gap invariant; no entry
    /// is ever overwritten or removed.
    pub fn insert(&mut self, index: usize, handle: TexHandle)
        requires
            old(self).wf(),
            index as nat == old(self)@.len(),
        ensures
            final(self).wf(),
            final(self)@ == old(self)@.insert(index, handle),
            final(self)@.len() == old(self)@.len() + 1,
    {
        proof {
            assert(!old(self)@.dom().contains(index));
        }
        self.0.insert(index, handle);
        proof {
            assert(self@.dom() == old(self)@.dom().insert(index));
            assert(self@.len() == old(self)@.len() + 1);
            assert forall|i: usize| self@.dom().contains(i) <==> (i as nat) < self@.len() by {
                assert(old(self)@.dom().contains(i) <==> (i as nat) < old(self)@.len());
            }
        }
    }

    /// Look up the handle registered under `index`.
    pub fn get(&self, index: usize) -> (r: Option<TexHandle>)
        ensures
            match r {
                Some(h) => self@.contains_key(index) && h == self@[index],
                None => !self@.contains_key(index),
            },
    {
        match self.0.get(&index) {
            Some(h) => Some(*h),
            None => None,
        }
    }
}

impl Clone for TexHandleQueue {
    /// Cloning keeps every index-to-handle binding.
    fn clone(&self) -> (r: Self)
        ensures
            r@ == self@,
    {
        TexHandleQueue(self.0.clone())
    }
}

impl Default for TexHandleQueue {
    /// The default registry is empty.
    fn default() -> (r: Self)
        ensures
            r@ == Map::<usize, TexHandle>::empty(),
            r.wf(),
    {
        TexHandleQueue::new()
    }
}

} // verus!
