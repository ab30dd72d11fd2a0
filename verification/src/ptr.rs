use vstd::prelude::*;
use core::marker::PhantomData;

verus! {

/// A pointer modeled as the pair of an opaque identity (provenance) token and
/// a numeric address.
///
/// The identity is the non-numeric information a memory model needs to
/// authorize a dereference; it is carried through every operation untouched,
/// while the address may be rewritten freely. The pointee type is a phantom
/// parameter: no operation of this crate ever inspects pointee memory.
#[verifier::reject_recursive_types(T)]
pub struct Ptr<T> {
    identity: usize,
    addr: usize,
    _pointee: PhantomData<T>,
}

impl<T> Clone for Ptr<T> {
    fn clone(&self) -> (r: Self)
        ensures
            r == *self,
    {
        Ptr { identity: self.identity, addr: self.addr, _pointee: PhantomData }
    }
}

impl<T> Copy for Ptr<T> {}

impl<T> Ptr<T> {
    /// The numeric address of this pointer.
    pub closed spec fn spec_addr(self) -> usize {
        self.addr
    }

    /// The identity (provenance) token of this pointer.
    pub closed spec fn spec_identity(self) -> usize {
        self.identity
    }

    /// Build a pointer from an identity token and a numeric address.
    pub fn new(identity: usize, addr: usize) -> (r: Self)
        ensures
            r.spec_identity() == identity,
            r.spec_addr() == addr,
    {
        Ptr { identity, addr, _pointee: PhantomData }
    }

    /// The null pointer: no identity, address zero.
    pub fn null() -> (r: Self)
        ensures
            r.spec_identity() == 0,
            r.spec_addr() == 0,
    {
        Ptr { identity: 0, addr: 0, _pointee: PhantomData }
    }

    /// Read the numeric address.
    #[verifier::when_used_as_spec(spec_addr)]
    pub fn addr(self) -> (r: usize)
        ensures
            r == self.spec_addr(),
    {
        self.addr
    }

    /// Read the identity token.
    #[verifier::when_used_as_spec(spec_identity)]
    pub fn identity(self) -> (r: usize)
        ensures
            r == self.spec_identity(),
    {
        self.identity
    }

    /// A pointer with the same identity but a replaced numeric address.
    pub fn with_addr(self, addr: usize) -> (r: Self)
        ensures
            r.spec_identity() == self.spec_identity(),
            r.spec_addr() == addr,
    {
        Ptr { identity: self.identity, addr, _pointee: PhantomData }
    }
}

} // verus!
