//! Append-only indexed storage.
//!
//! Every entity store of the raw item set is an [`Arena`]: records are
//! appended, each append returns a small stable index, and no record is ever
//! removed, so an index stays valid for the lifetime of the store. A slot
//! can be overwritten in place through its index, which is what lets a
//! module definition's item list be filled in after the module's own record
//! has already been allocated.

use vstd::prelude::*;

verus! {

/// Growable store of records addressed by small stable indices.
#[derive(Debug, PartialEq, Eq)]
pub struct Arena<T> {
    records: Vec<T>,
}

impl<T: View> View for Arena<T> {
    type V = Seq<T::V>;

    closed spec fn view(&self) -> Seq<T::V> {
        self.records@.map_values(|t: T| t@)
    }
}

impl<T: View> Arena<T> {
    /// An empty store.
    pub fn new() -> (r: Arena<T>)
        ensures
            r@ == Seq::<T::V>::empty(),
    {
        let r = Arena { records: Vec::new() };
        proof {
            assert(r@ =~= Seq::<T::V>::empty());
        }
        r
    }

    /// Number of records allocated so far; also the index the next
    /// allocation will return.
    pub fn len(&self) -> (n: usize)
        ensures
            n == self@.len(),
    {
        self.records.len()
    }

    /// Appends a record and returns its index.
    pub fn allocate(&mut self, record: T) -> (idx: usize)
        ensures
            final(self)@ == old(self)@.push(record@),
            idx == old(self)@.len(),
    {
        let idx = self.records.len();
        self.records.push(record);
        proof {
            assert(self@ =~= old(self)@.push(record@));
        }
        idx
    }

    /// Resolves an index to its record.
    pub fn get(&self, idx: usize) -> (r: &T)
        requires
            idx < self@.len(),
        ensures
            r@ == self@[idx as int],
    {
        &self.records[idx]
    }

    /// Replaces the record at an existing index; the index stays valid.
    pub fn set(&mut self, idx: usize, record: T)
        requires
            idx < old(self)@.len(),
        ensures
            final(self)@ == old(self)@.update(idx as int, record@),
    {
        self.records.set(idx, record);
        proof {
            assert(self@ =~= old(self)@.update(idx as int, record@));
        }
    }
}

} // verus!
