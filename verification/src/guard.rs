use vstd::prelude::*;

use crate::state::AtomicBorrow;

verus! {

/// Pairs data with the `AtomicBorrow` under which a shared borrow of it
/// was acquired.
pub struct SharedGuard<'a, T> {
    data: &'a T,
    borrow: &'a AtomicBorrow,
}

impl<'a, T> SharedGuard<'a, T> {
    /// The guarded value.
    pub closed spec fn value(self) -> T {
        *self.data
    }

    /// The borrow state the guard is paired with.
    pub closed spec fn state(self) -> AtomicBorrow {
        *self.borrow
    }

    /// Creates a new `SharedGuard` pairing `data` with `borrow`.
    pub fn new(data: &'a T, borrow: &'a AtomicBorrow) -> (r: Self)
        ensures
            r.value() == *data,
            r.state() == *borrow,
    {
        SharedGuard { data, borrow }
    }

    /// Gets the inner `AtomicBorrow`.
    pub fn get_borrow(&self) -> (r: &'a AtomicBorrow)
        ensures
            *r == self.state(),
    {
        self.borrow
    }

    /// Gets the inner data.
    pub fn ptr(&self) -> (r: &'a T)
        ensures
            *r == self.value(),
    {
        self.data
    }

    /// Consumes the guard and hands the data back without releasing the
    /// shared borrow: the caller keeps the duty of one matching
    /// [`AtomicBorrow::release`].
    pub fn forget(self) -> (r: &'a T)
        ensures
            *r == self.value(),
    {
        self.data
    }
}

/// Holds data while an exclusive borrow of it is registered with an
/// `AtomicBorrow`. The guard owns the value for as long as the borrow
/// lasts; [`UniqueGuard::forget`] hands it back, and the caller then owes
/// the matching [`AtomicBorrow::release_mut`].
pub struct UniqueGuard<'a, T> {
    data: T,
    borrow: &'a AtomicBorrow,
}

impl<'a, T> UniqueGuard<'a, T> {
    /// The guarded value as the guard now holds it.
    pub closed spec fn value(self) -> T {
        self.data
    }

    /// The borrow state the guard is paired with.
    pub closed spec fn state(self) -> AtomicBorrow {
        *self.borrow
    }

    /// Creates a new `UniqueGuard` pairing `data` with `borrow`.
    pub fn new(data: T, borrow: &'a AtomicBorrow) -> (r: Self)
        ensures
            r.value() == data,
            r.state() == *borrow,
    {
        UniqueGuard { data, borrow }
    }

    /// Gets the inner `AtomicBorrow`.
    pub fn get_borrow(&self) -> (r: &'a AtomicBorrow)
        ensures
            *r == self.state(),
    {
        self.borrow
    }

    /// Gets the inner data, to read or to write, for as long as the guard
    /// itself stays borrowed.
    pub fn ptr(&mut self) -> (r: &mut T)
        ensures
            *r == old(self).value(),
            final(self).value() == *final(r),
            final(self).state() == old(self).state(),
    {
        &mut self.data
    }

    /// Consumes the guard and hands the data back without releasing the
    /// exclusive borrow: the caller keeps the duty of one matching
    /// [`AtomicBorrow::release_mut`].
    pub fn forget(self) -> (r: T)
        ensures
            r == self.value(),
    {
        self.data
    }
}

} // verus!
