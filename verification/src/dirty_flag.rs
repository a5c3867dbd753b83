//! Dirty-tracked value container.
//!
//! `DirtyFlag<T>` wraps a value together with one boolean that records
//! whether the value has been mutated since its owner last propagated it to
//! its dependents (for instance a GPU-resident uniform buffer). The checked
//! accessor [`DirtyFlag::read`] refuses to hand out a value with pending
//! unpropagated writes: observing such a value is a programming error, and
//! the error type [`StaleRead`] signals it to the caller.

use vstd::prelude::*;

verus! {

/// A checked read was attempted while the value was marked dirty.
#[derive(Clone, Copy, Debug, PartialEq, Eq)]
pub struct StaleRead;

/// A value of type `T` guarded by a dirty flag. Created clean; every write
/// access marks it dirty; the owner clears the flag after propagating.
pub struct DirtyFlag<T> {
    is_dirty: bool,
    data: T,
}

impl<T> DirtyFlag<T> {
    /// The current flag.
    pub closed spec fn spec_dirty(&self) -> bool {
        self.is_dirty
    }

    /// The current value.
    pub closed spec fn spec_data(&self) -> T {
        self.data
    }

    /// Wrap `data` with the flag cleared.
    pub fn new(data: T) -> (r: DirtyFlag<T>)
        ensures
            !r.spec_dirty(),
            r.spec_data() == data,
    {
        DirtyFlag { is_dirty: false, data }
    }

    /// Checked read: succeeds exactly when the value is clean.
    pub fn read(&self) -> (r: Result<&T, StaleRead>)
        ensures
            r is Ok <==> !self.spec_dirty(),
            r matches Ok(v) ==> *v == self.spec_data(),
    {
        if self.is_dirty {
            Err(StaleRead)
        } else {
            Ok(&self.data)
        }
    }

    /// Read without the staleness check, for the propagation step itself and
    /// for callers that tolerate a value with pending writes.
    pub fn unchecked_read(&self) -> (r: &T)
        ensures
            *r == self.spec_data(),
    {
        &self.data
    }

    /// Mutable access; unconditionally marks the value dirty.
    pub fn write(&mut self) -> (r: &mut T)
        ensures
            *r == old(self).spec_data(),
            final(self).spec_dirty(),
            final(self).spec_data() == *final(r),
    {
        self.is_dirty = true;
        &mut self.data
    }

    /// Mutable access to both the value and the flag, for the owner's
    /// propagation step. Does not itself mark the value dirty.
    pub fn get_all(&mut self) -> (r: (&mut T, &mut bool))
        ensures
            *r.0 == old(self).spec_data(),
            *r.1 == old(self).spec_dirty(),
            final(self).spec_data() == *final(r.0),
            final(self).spec_dirty() == *final(r.1),
    {
        (&mut self.data, &mut self.is_dirty)
    }

    /// Is a write pending?
    pub fn is_dirty(&mut self) -> (r: bool)
        ensures
            *final(self) == *old(self),
            r == old(self).spec_dirty(),
    {
        self.is_dirty
    }

    /// Clear the flag after the owner has propagated the change.
    pub fn clean_flag(&mut self)
        ensures
            !final(self).spec_dirty(),
            final(self).spec_data() == old(self).spec_data(),
    {
        self.is_dirty = false;
    }

    /// Mark the value dirty without touching it.
    pub fn set_dirty(&mut self)
        ensures
            final(self).spec_dirty(),
            final(self).spec_data() == old(self).spec_data(),
    {
        self.is_dirty = true;
    }
}

} // verus!
