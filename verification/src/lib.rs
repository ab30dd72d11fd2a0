//! Stuffing a pointer or an alternate value into one fixed-width storage cell.
//!
//! A [`StuffedPtr`] holds exactly one of two things: a pointer (an address
//! together with its identity, the provenance a memory model needs to
//! authorize a dereference) or an alternate `other` value. A [`Backend`]
//! fixes the physical width of the cell and carries the identity losslessly
//! through it; a [`StuffingStrategy`] decides how address bits and payload
//! bits share the cell and how a read classifies which variant is present.
//!
//! Pointers are modeled throughout as a pair of an opaque identity token and
//! a numeric address ([`Ptr`]); only the numeric address takes part in any
//! bit arithmetic, and the identity rides along unchanged, so a recovered
//! pointer carries exactly the identity that was stored with it.

use vstd::prelude::*;

use core::marker::PhantomData;

pub mod backend;
pub mod either;
pub mod guard;
pub mod ptr;
pub mod strategies;
pub mod strategy;
pub mod tag;

pub use crate::backend::Backend;
pub use crate::either::Either;
pub use crate::guard::AllowAlias;
pub use crate::guard::Guard;
pub use crate::ptr::Ptr;
pub use crate::strategy::StuffingStrategy;

verus! {

/// A union of a pointer or some `other` data, bitpacked into a value whose
/// width is fixed by the backend `B`. The strategy `S` decides the packing
/// policy; `T` is the pointee type, and is never inspected.
///
/// The cell's only runtime state is one `B::Stored`; which variant it holds
/// is not cached but re-derived by decoding its bits, and the identity of a
/// stored pointer is carried by the backend outside the bits.
#[verifier::reject_recursive_types(T)]
#[verifier::reject_recursive_types(S)]
#[verifier::reject_recursive_types(B)]
pub struct StuffedPtr<T, S, B = usize> where B: Backend<T> {
    stored: B::Stored,
    _marker: PhantomData<S>,
}

impl<T, S, B> StuffedPtr<T, S, B> where S: StuffingStrategy<B>, B: Backend<T> {
    /// The integer the cell's storage holds.
    pub closed spec fn spec_raw(self) -> B {
        B::spec_value(self.stored)
    }

    /// The identity token the cell's storage carries.
    pub closed spec fn spec_identity(self) -> usize {
        B::spec_identity(self.stored)
    }

    /// The variant the cell currently holds, re-derived from its bits.
    pub open spec fn decoded(self) -> Either<usize, S::Other> {
        S::spec_extract(self.spec_raw())
    }

    /// Create a cell from a pointer: capture its identity and ask the
    /// strategy to encode its address. Never inspects pointee memory.
    pub fn new_ptr(ptr: Ptr<T>) -> (r: Self)
        ensures
            r.spec_identity() == ptr.spec_identity(),
            r.spec_raw() == S::spec_stuff_ptr(ptr.spec_addr()),
            S::spec_valid_addr(ptr.spec_addr()) ==> r.decoded() == Either::<
                usize,
                S::Other,
            >::Ptr(ptr.spec_addr()),
    {
        let addr = ptr.addr();
        let stuffed = S::stuff_ptr(addr);
        proof {
            if S::spec_valid_addr(addr) {
                S::lemma_stuff_ptr_round_trip(addr);
            }
        }
        StuffedPtr { stored: B::set_ptr(ptr, stuffed), _marker: PhantomData }
    }

    /// Create a cell from `other` data. No pointer is implied, so the cell
    /// carries the null identity; ownership of `other` moves into the cell.
    pub fn new_other(other: S::Other) -> (r: Self)
        ensures
            r.spec_identity() == 0,
            r.spec_raw() == S::spec_stuff_other(other),
            S::spec_valid_other(other) ==> r.decoded() == Either::<usize, S::Other>::Other(
                other,
            ),
    {
        let ptr = Ptr::<T>::null();
        proof {
            if S::spec_valid_other(other) {
                S::lemma_stuff_other_round_trip(other);
            }
        }
        let data = S::stuff_other(other);
        StuffedPtr { stored: B::set_ptr(ptr, data), _marker: PhantomData }
    }

    /// The recovered pointer — its address as the strategy decoded it,
    /// rebuilt with the identity the backend kept — or `None` if the cell
    /// holds `other` data.
    pub fn get_ptr(&self) -> (r: Option<Ptr<T>>)
        ensures
            (match self.decoded() {
                Either::Ptr(addr) => r matches Some(p) && p.spec_addr() == addr
                    && p.spec_identity() == self.spec_identity(),
                Either::Other(_) => r is None,
            }),
    {
        let (provenance, stored) = B::get_ptr(self.stored);
        match S::extract(stored).ptr() {
            Some(addr) => Some(provenance.with_addr(addr)),
            None => None,
        }
    }

    /// The `other` data, or `None` if the cell holds a pointer. The cell is
    /// left in place; the returned value is reconstructed from its bits.
    pub fn get_other(&self) -> (r: Option<S::Other>)
        ensures
            (match self.decoded() {
                Either::Ptr(_) => r is None,
                Either::Other(other) => r == Some(other),
            }),
    {
        let data = self.addr();
        S::extract(data).other()
    }

    /// Consume the cell and take ownership of its `other` data, or `None` if
    /// it holds a pointer. After this the cell is gone, so the payload can
    /// never be disposed of a second time through it.
    pub fn into_other(self) -> (r: Option<S::Other>)
        ensures
            (match self.decoded() {
                Either::Ptr(_) => r is None,
                Either::Other(other) => r == Some(other),
            }),
    {
        let data = self.addr();
        S::extract(data).other()
    }

    /// Consume the cell into whichever variant it holds: the recovered
    /// pointer with its identity, or the owned `other` data.
    pub fn into_inner(self) -> (r: Either<Ptr<T>, S::Other>)
        ensures
            (match self.decoded() {
                Either::Ptr(addr) => r matches Either::Ptr(p) && p.spec_addr() == addr
                    && p.spec_identity() == self.spec_identity(),
                Either::Other(other) => r == Either::<Ptr<T>, S::Other>::Other(other),
            }),
    {
        let (provenance, stored) = B::get_ptr(self.stored);
        S::extract(stored).map_ptr(
            |a: usize| -> (p: Ptr<T>) ensures p.spec_addr() == a && p.spec_identity() == provenance.spec_identity() {
                provenance.with_addr(a)
            },
        )
    }

    /// Inspect the cell without consuming it: the recovered pointer, or a
    /// borrowed view of the `other` data that claims no ownership.
    pub fn get<'a>(&'a self) -> (r: Either<Ptr<T>, Guard<'a, S::Other>>)
        ensures
            (match self.decoded() {
                Either::Ptr(addr) => r matches Either::Ptr(p) && p.spec_addr() == addr
                    && p.spec_identity() == self.spec_identity(),
                Either::Other(other) => r matches Either::Other(g) && g@ == other,
            }),
    {
        let (provenance, stored) = B::get_ptr(self.stored);
        S::extract(stored).map_ptr(
            |a: usize| -> (p: Ptr<T>) ensures p.spec_addr() == a && p.spec_identity() == provenance.spec_identity() {
                provenance.with_addr(a)
            },
        ).map_other(|o: S::Other| -> (g: Guard<'a, S::Other>) ensures g@ == o { Guard::new(o) })
    }

    /// The stored pointer, on a cell known to hold the address variant. An
    /// optimization over [`StuffedPtr::get_ptr`]: calling it against the
    /// wrong variant is a precondition violation, ruled out before the call
    /// instead of branched on inside it.
    pub fn get_ptr_unchecked(&self) -> (r: Ptr<T>)
        requires
            self.decoded() is Ptr,
        ensures
            (match self.decoded() {
                Either::Ptr(addr) => r.spec_addr() == addr && r.spec_identity()
                    == self.spec_identity(),
                Either::Other(_) => false,
            }),
    {
        let (provenance, stored) = B::get_ptr(self.stored);
        match S::extract(stored) {
            Either::Ptr(a) => provenance.with_addr(a),
            Either::Other(_) => vstd::pervasive::unreached(),
        }
    }

    /// The `other` data, on a cell known to hold it. An optimization over
    /// [`StuffedPtr::get_other`], with the same precondition discipline as
    /// [`StuffedPtr::get_ptr_unchecked`].
    pub fn get_other_unchecked(&self) -> (r: S::Other)
        requires
            self.decoded() is Other,
        ensures
            self.decoded() == Either::<usize, S::Other>::Other(r),
    {
        match S::extract(self.addr()) {
            Either::Ptr(_) => vstd::pervasive::unreached(),
            Either::Other(o) => o,
        }
    }

    /// The stored integer, for classification only; rebuilding a pointer
    /// from it would lose the identity.
    fn addr(&self) -> (r: B)
        ensures
            r == self.spec_raw(),
    {
        B::get_int(self.stored)
    }

    /// What cell equality means: both decode to addresses and the addresses
    /// are identical (identity is not compared, mirroring raw-pointer
    /// equality), or both decode to payloads and the payloads are equal; a
    /// cell in one variant is never equal to a cell in the other.
    pub open spec fn spec_equals(self, other: Self) -> bool {
        match (self.decoded(), other.decoded()) {
            (Either::Ptr(a), Either::Ptr(b)) => a == b,
            (Either::Other(u), Either::Other(v)) => u == v,
            _ => false,
        }
    }

    /// Decide [`StuffedPtr::spec_equals`] on two cells.
    pub fn equals(&self, other: &Self) -> (r: bool)
        ensures
            r == self.spec_equals(*other),
    {
        let a = S::extract(self.addr());
        let b = S::extract(other.addr());
        match (a, b) {
            (Either::Ptr(x), Either::Ptr(y)) => x == y,
            (Either::Other(u), Either::Other(v)) => S::other_eq(&u, &v),
            _ => false,
        }
    }

    /// Law: a cell always holds exactly one of the two variants — whichever
    /// of the pointer and the payload accessor answers, the other does not.
    pub proof fn lemma_variant_exclusivity(self)
        ensures
            (self.decoded() is Ptr) <==> !(self.decoded() is Other),
    {
    }

    /// Law: a cell whose bits encode a valid address decodes to exactly that
    /// address, whatever was packed around it.
    pub proof fn lemma_address_round_trip(self, addr: usize)
        requires
            S::spec_valid_addr(addr),
            self.spec_raw() == S::spec_stuff_ptr(addr),
        ensures
            self.decoded() == Either::<usize, S::Other>::Ptr(addr),
    {
        S::lemma_stuff_ptr_round_trip(addr);
    }

    /// Law: a cell whose bits encode a valid payload decodes to exactly that
    /// payload.
    pub proof fn lemma_other_round_trip(self, other: S::Other)
        requires
            S::spec_valid_other(other),
            self.spec_raw() == S::spec_stuff_other(other),
        ensures
            self.decoded() == Either::<usize, S::Other>::Other(other),
    {
        S::lemma_stuff_other_round_trip(other);
    }

    /// Law: two cells stuffed from the same valid address are equal.
    pub proof fn lemma_eq_same_address(self, other: Self, addr: usize)
        requires
            S::spec_valid_addr(addr),
            self.spec_raw() == S::spec_stuff_ptr(addr),
            other.spec_raw() == S::spec_stuff_ptr(addr),
        ensures
            self.spec_equals(other),
    {
        S::lemma_stuff_ptr_round_trip(addr);
    }

    /// Law: two cells stuffed from equal valid payloads are equal.
    pub proof fn lemma_eq_equal_others(self, other: Self, u: S::Other, v: S::Other)
        requires
            u == v,
            S::spec_valid_other(u),
            self.spec_raw() == S::spec_stuff_other(u),
            other.spec_raw() == S::spec_stuff_other(v),
        ensures
            self.spec_equals(other),
    {
        S::lemma_stuff_other_round_trip(u);
    }

    /// Law: a cell holding an address is never equal to one holding a
    /// payload.
    pub proof fn lemma_eq_mixed_variants(self, other: Self)
        requires
            self.decoded() is Ptr,
            other.decoded() is Other,
        ensures
            !self.spec_equals(other),
            !other.spec_equals(self),
    {
    }
}

/// Extra implementations if the `other` type is `Copy`.
impl<T, S, B> StuffedPtr<T, S, B> where
    S: StuffingStrategy<B>,
    S::Other: Copy,
    B: Backend<T>,
 {
    /// Copy the `other` data out, or `None` if the cell holds a pointer.
    pub fn copy_other(&self) -> (r: Option<S::Other>)
        ensures
            (match self.decoded() {
                Either::Ptr(_) => r is None,
                Either::Other(other) => r == Some(other),
            }),
    {
        self.get_other()
    }
}

impl<T, S, B> Clone for StuffedPtr<T, S, B> where S: StuffingStrategy<B>, B: Backend<T> {
    /// Clone by decoding: an address variant is re-stuffed from its address
    /// and keeps its identity; a payload variant re-encodes a payload
    /// reconstructed from the bits, claiming no second ownership.
    fn clone(&self) -> (r: Self)
        ensures
            r.decoded() == self.decoded(),
            self.decoded() is Ptr ==> r.spec_identity() == self.spec_identity(),
    {
        proof {
            S::lemma_extract_in_domain(self.spec_raw());
        }
        let (provenance, stored) = B::get_ptr(self.stored);
        match S::extract(stored) {
            Either::Ptr(a) => Self::new_ptr(provenance.with_addr(a)),
            Either::Other(o) => Self::new_other(o),
        }
    }
}

impl<T, S, B> Copy for StuffedPtr<T, S, B> where
    S: StuffingStrategy<B>,
    S::Other: Copy,
    B: Backend<T>,
 {

}

} // verus!
