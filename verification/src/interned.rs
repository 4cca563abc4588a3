use std::marker::PhantomData;
use vstd::prelude::*;

verus! {

/// A handle to a value that an interning table holds exactly once.
///
/// A handle is a plain index; the type parameter only records what kind of
/// value it refers to, so that handles of different tables cannot be mixed up.
#[derive(Debug, PartialEq, Eq, Hash)]
pub struct Interned<T> {
    pub idx: u64,
    pub kind: PhantomData<T>,
}

impl<T> Interned<T> {
    /// The position of the referent in its table.
    pub open spec fn index(self) -> int {
        self.idx as int
    }

    /// The handle of the entry at position `idx`.
    pub fn from_index(idx: u64) -> (r: Self)
        ensures
            r.index() == idx,
    {
        Interned { idx, kind: PhantomData }
    }

    /// The position of the referent in its table.
    pub fn as_bimap_index(&self) -> (r: u64)
        ensures
            r == self.index(),
    {
        self.idx
    }

    /// Whether two handles refer to the same entry.
    pub fn is(&self, other: &Self) -> (r: bool)
        ensures
            r == (*self == *other),
            r == (self.index() == other.index()),
    {
        self.idx == other.idx
    }
}

impl<T> Clone for Interned<T> {
    fn clone(&self) -> (r: Self)
        ensures
            r == *self,
    {
        Interned { idx: self.idx, kind: PhantomData }
    }
}

impl<T> Copy for Interned<T> {

}

} // verus!
