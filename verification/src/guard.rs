use vstd::prelude::*;

use core::marker::PhantomData;

verus! {

/// A payload value reconstructed from a cell's bits for inspection only:
/// holding or dropping it claims no ownership of the payload's resources,
/// because it was never granted any.
pub struct AllowAlias<T> {
    value: T,
}

impl<T> View for AllowAlias<T> {
    type V = T;

    closed spec fn view(&self) -> T {
        self.value
    }
}

impl<T> AllowAlias<T> {
    pub fn new(value: T) -> (r: Self)
        ensures
            r@ == value,
    {
        AllowAlias { value }
    }

    pub fn into_inner(self) -> (r: T)
        ensures
            r == self@,
    {
        self.value
    }
}

/// A borrowed view of a cell's payload: acts like a reference into the cell
/// but carries the reconstructed value. Reading through it never transfers
/// ownership, so it can never cause a second disposal of the payload.
pub struct Guard<'a, T> {
    inner: AllowAlias<T>,
    _boo: PhantomData<&'a ()>,
}

impl<'a, T> View for Guard<'a, T> {
    type V = T;

    closed spec fn view(&self) -> T {
        self.inner@
    }
}

impl<'a, T> Guard<'a, T> {
    pub fn new(value: T) -> (r: Self)
        ensures
            r@ == value,
    {
        Guard { inner: AllowAlias::new(value), _boo: PhantomData }
    }

    /// Give up the view and take the value it carries. The caller becomes
    /// responsible for not treating the result as a second owned copy of a
    /// payload that the cell still holds.
    pub fn into_inner(self) -> (r: T)
        ensures
            r == self@,
    {
        self.inner.into_inner()
    }

    /// Read the carried value.
    pub fn inner(&self) -> (r: &T)
        ensures
            *r == self@,
    {
        &self.inner.value
    }
}

} // verus!
