//! Index-stable object pool: an arena of default-initialized slots plus a
//! free-index stack. Handles are indices, so the arena can grow without
//! invalidating live handles.

use vstd::prelude::*;

verus! {

#[derive(Debug, Clone)]
pub struct ObjectPool<T: Default> {
    pool: Vec<T>,
    free: Vec<usize>,
}

impl<T: Default> ObjectPool<T> {
    /// The arena's slots, live and freed alike.
    pub closed spec fn pool_spec(&self) -> Seq<T> {
        self.pool@
    }

    /// The stack of freed handles awaiting reuse.
    pub closed spec fn free_spec(&self) -> Seq<usize> {
        self.free@
    }

    pub fn new(reserve_size: usize) -> (r: Self)
        ensures
            r.pool_spec().len() == 0,
            r.free_spec().len() == 0,
    {
        ObjectPool { pool: Vec::with_capacity(reserve_size), free: Vec::new() }
    }

    /// Hands out a handle: the most recently freed one if any, else a fresh
    /// slot holding `T`'s default value, appended to the arena.
    pub fn allocate(&mut self) -> (idx: usize)
        ensures
            old(self).free_spec().len() > 0 ==> {
                &&& idx == old(self).free_spec().last()
                &&& final(self).free_spec() == old(self).free_spec().drop_last()
                &&& final(self).pool_spec() == old(self).pool_spec()
            },
            old(self).free_spec().len() == 0 ==> {
                &&& idx == old(self).pool_spec().len()
                &&& final(self).free_spec() == old(self).free_spec()
                &&& final(self).pool_spec().len() == old(self).pool_spec().len() + 1
                &&& final(self).pool_spec().take(old(self).pool_spec().len() as int) == old(
                    self,
                ).pool_spec()
            },
    {
        match self.free.pop() {
            Some(idx) => idx,
            None => {
                self.pool.push(T::default());
                proof {
                    assert(self.pool@.take(old(self).pool@.len() as int) =~= old(self).pool@);
                }
                self.pool.len() - 1
            },
        }
    }

    pub fn get(&self, idx: usize) -> (r: &T)
        requires
            idx < self.pool_spec().len(),
        ensures
            *r == self.pool_spec()[idx as int],
    {
        &self.pool[idx]
    }

    pub fn get_mut(&mut self, idx: usize) -> (r: &mut T)
        requires
            idx < old(self).pool_spec().len(),
        ensures
            *r == old(self).pool_spec()[idx as int],
            final(self).pool_spec() == old(self).pool_spec().update(idx as int, *final(r)),
            final(self).free_spec() == old(self).free_spec(),
    {
        &mut self.pool[idx]
    }

    /// Returns a handle to the free stack; the slot's value stays in place
    /// until the handle is reused.
    pub fn free(&mut self, idx: usize)
        ensures
            final(self).free_spec() == old(self).free_spec().push(idx),
            final(self).pool_spec() == old(self).pool_spec(),
    {
        self.free.push(idx);
    }
}

} // verus!
