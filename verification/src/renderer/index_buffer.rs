use core::marker::PhantomData;

use vstd::prelude::*;

use crate::{PhantomUnsend, PhantomUnsync};

verus! {

/// An opaque handle to an index buffer owned by a renderer.
#[derive(Debug, Clone, Copy, PartialEq, Eq, Hash)]
pub struct IndexBufferID(pub(crate) u64, pub(crate) PhantomUnsend, pub(crate) PhantomUnsync);

impl View for IndexBufferID {
    type V = int;

    closed spec fn view(&self) -> int {
        self.0 as int
    }
}

impl IndexBufferID {
    pub(crate) fn make(value: u64) -> (r: IndexBufferID)
        ensures
            r@ == value as int,
    {
        IndexBufferID(value, PhantomData, PhantomData)
    }

    /// The numeric value of the handle.
    pub fn value(&self) -> (r: u64)
        ensures
            r as int == self@,
    {
        self.0
    }
}

/// An index buffer registered with a renderer: the number of 32-bit
/// indices last uploaded.
pub struct IndexBufferResource {
    pub(crate) id: IndexBufferID,
    pub(crate) count: usize,
}

impl IndexBufferResource {
    pub(crate) fn make(id: IndexBufferID, count: usize) -> (r: IndexBufferResource)
        ensures
            r.spec_id() == id@,
            r.spec_count() == count as int,
    {
        IndexBufferResource { id, count }
    }

    /// The handle value this resource is registered under.
    pub closed spec fn spec_id(&self) -> int {
        self.id@
    }

    /// The number of indices last uploaded.
    pub closed spec fn spec_count(&self) -> int {
        self.count as int
    }

    pub fn get_id(&self) -> (r: IndexBufferID)
        ensures
            r@ == self.spec_id(),
    {
        self.id
    }

    /// The number of indices last uploaded.
    pub fn get_count(&self) -> (r: usize)
        ensures
            r as int == self.spec_count(),
    {
        self.count
    }
}

} // verus!
