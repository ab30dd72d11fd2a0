use vstd::prelude::*;

verus! {

/// The two things a stuffed cell can decode to: a pointer (or its numeric
/// address) or the alternate `other` payload.
#[derive(Debug, Clone, Copy, PartialEq, Eq, Hash)]
pub enum Either<P, O> {
    Ptr(P),
    Other(O),
}

impl<P: Copy, O> Either<P, O> {
    /// The pointer branch, or `None` if this holds an `other` payload.
    pub fn ptr(&self) -> (r: Option<P>)
        ensures
            (match *self {
                Either::Ptr(p) => r == Some(p),
                Either::Other(_) => r is None,
            }),
    {
        match *self {
            Self::Ptr(ptr) => Some(ptr),
            Self::Other(_) => None,
        }
    }

    /// The `other` payload, or `None` if this holds a pointer.
    pub fn other(self) -> (r: Option<O>)
        ensures
            (match self {
                Either::Ptr(_) => r is None,
                Either::Other(o) => r == Some(o),
            }),
    {
        match self {
            Self::Ptr(_) => None,
            Self::Other(other) => Some(other),
        }
    }

    /// Apply `f` to the pointer branch, leaving an `other` payload untouched.
    pub fn map_ptr<U, F: FnOnce(P) -> U>(self, f: F) -> (r: Either<U, O>)
        requires
            self matches Either::Ptr(p) ==> call_requires(f, (p,)),
        ensures
            (match self {
                Either::Ptr(p) => r matches Either::Ptr(u) && call_ensures(f, (p,), u),
                Either::Other(o) => r == Either::<U, O>::Other(o),
            }),
    {
        match self {
            Self::Ptr(ptr) => Either::Ptr(f(ptr)),
            Self::Other(other) => Either::Other(other),
        }
    }

    /// Apply `f` to the `other` payload, leaving a pointer untouched.
    pub fn map_other<U, F: FnOnce(O) -> U>(self, f: F) -> (r: Either<P, U>)
        requires
            self matches Either::Other(o) ==> call_requires(f, (o,)),
        ensures
            (match self {
                Either::Ptr(p) => r == Either::<P, U>::Ptr(p),
                Either::Other(o) => r matches Either::Other(u) && call_ensures(f, (o,), u),
            }),
    {
        match self {
            Self::Ptr(ptr) => Either::Ptr(ptr),
            Self::Other(other) => Either::Other(f(other)),
        }
    }
}

} // verus!
