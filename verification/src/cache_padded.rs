//! A wrapper that stands for a value padded out to its own cache line, so
//! that two independently-contended fields (a lock's state word and its
//! queue guard, say) do not share a line and generate false-sharing traffic.
//!
//! The padding itself is a layout concern with no logical content; what is
//! verified here is that the wrapper is transparent: every way in and out of
//! it preserves the wrapped value exactly.

use vstd::prelude::*;

verus! {

/// Wraps exactly one value of type `T`; exposes it by reference and by move.
/// It has no lifecycle of its own beyond its owner's.
#[derive(Debug)]
pub struct CachePadded<T> {
    value: T,
}

impl<T> CachePadded<T> {
    /// The wrapped value, as contracts see it.
    pub closed spec fn inner(&self) -> T {
        self.value
    }

    /// Pads and aligns a value to a pessimistic estimate of the platform's
    /// cache line.
    pub fn new(value: T) -> (r: Self)
        ensures
            r.inner() == value,
    {
        CachePadded { value }
    }

    /// Returns the wrapped value, consuming the padding.
    pub fn into_inner(self) -> (r: T)
        ensures
            r == self.inner(),
    {
        self.value
    }

    /// Borrows the wrapped value.
    pub fn as_ref(&self) -> (r: &T)
        ensures
            *r == self.inner(),
    {
        &self.value
    }

    /// Borrows the wrapped value mutably; writes through the borrow are
    /// writes to the wrapped value.
    pub fn as_mut(&mut self) -> (r: &mut T)
        ensures
            *r == old(self).inner(),
            final(self).inner() == *final(r),
    {
        &mut self.value
    }
}

impl<T> From<T> for CachePadded<T> {
    /// Padding a value changes nothing but its placement.
    fn from(value: T) -> (r: Self)
        ensures
            r.inner() == value,
    {
        CachePadded::new(value)
    }
}

impl<T> vstd::std_specs::convert::FromSpecImpl<T> for CachePadded<T> {
    open spec fn obeys_from_spec() -> bool {
        true
    }

    closed spec fn from_spec(value: T) -> Self {
        CachePadded { value }
    }
}

} // verus!
