use vstd::prelude::*;

use core::marker::PhantomData;

use crate::backend::Backend;
use crate::ptr::Ptr;

verus! {

/// The policy that packs a small tag into the spare bits of a pointer's
/// address, and recovers either from the packed integer.
///
/// Like a stuffing strategy it carries its laws as proof obligations: packing
/// a valid address with a tag keeps both readable, and an address recovered
/// from any packed integer is itself valid to re-pack, so re-tagging never
/// loses address bits.
pub trait TaggingStrategy<B>: Sized {
    /// The type of the tag.
    type Tag: Copy;

    /// The addresses whose spare bits can hold a tag.
    spec fn spec_valid_addr(addr: usize) -> bool;

    /// The tag that the packed integer `data` holds.
    spec fn spec_get_tag(data: B) -> Self::Tag;

    /// The address that the packed integer `data` holds.
    spec fn spec_get_ptr_addr(data: B) -> usize;

    /// The packed integer holding `addr` and `tag`.
    spec fn spec_set(addr: usize, tag: Self::Tag) -> B;

    /// Law: a valid address packed with any tag keeps both readable.
    proof fn lemma_set_round_trip(addr: usize, tag: Self::Tag)
        requires
            Self::spec_valid_addr(addr),
        ensures
            Self::spec_get_tag(Self::spec_set(addr, tag)) == tag,
            Self::spec_get_ptr_addr(Self::spec_set(addr, tag)) == addr,
    ;

    /// Law: a recovered address is valid to pack again.
    proof fn lemma_get_ptr_addr_valid(data: B)
        ensures
            Self::spec_valid_addr(Self::spec_get_ptr_addr(data)),
    ;

    /// Read the tag out of a packed integer.
    fn get_tag(data: B) -> (r: Self::Tag)
        ensures
            r == Self::spec_get_tag(data),
    ;

    /// Read the address out of a packed integer.
    fn get_ptr_addr(data: B) -> (r: usize)
        ensures
            r == Self::spec_get_ptr_addr(data),
    ;

    /// Pack an address and a tag into one integer.
    fn set(addr: usize, tag: Self::Tag) -> (r: B)
        ensures
            r == Self::spec_set(addr, tag),
    ;
}

/// A pointer and a tag packed into one cell: the backend `B` fixes the
/// storage and carries the pointer's identity, the strategy `S` fixes how the
/// tag shares the bits with the address.
#[verifier::reject_recursive_types(T)]
#[verifier::reject_recursive_types(S)]
#[verifier::reject_recursive_types(B)]
pub struct TaggedPtr<T, S, B = usize> where B: Backend<T> {
    stored: B::Stored,
    _marker: PhantomData<S>,
}

impl<T, S, B> TaggedPtr<T, S, B> where S: TaggingStrategy<B>, B: Backend<T> {
    /// The packed integer the cell's storage holds.
    pub closed spec fn spec_raw(self) -> B {
        B::spec_value(self.stored)
    }

    /// The identity token the cell's storage carries.
    pub closed spec fn spec_identity(self) -> usize {
        B::spec_identity(self.stored)
    }

    /// Pack a pointer and a tag. The pointer's identity is captured; for a
    /// valid address, both the tag and the address read back exactly.
    pub fn new(ptr: Ptr<T>, tag: S::Tag) -> (r: Self)
        ensures
            r.spec_identity() == ptr.spec_identity(),
            r.spec_raw() == S::spec_set(ptr.spec_addr(), tag),
            S::spec_valid_addr(ptr.spec_addr()) ==> S::spec_get_tag(r.spec_raw()) == tag
                && S::spec_get_ptr_addr(r.spec_raw()) == ptr.spec_addr(),
    {
        let addr = ptr.addr();
        let tagged = S::set(addr, tag);
        proof {
            if S::spec_valid_addr(addr) {
                S::lemma_set_round_trip(addr, tag);
            }
        }
        let stored = B::set_ptr(ptr, tagged);
        TaggedPtr { stored, _marker: PhantomData }
    }

    /// The stored pointer: the recovered address rebuilt with the kept
    /// identity.
    pub fn get_ptr(&self) -> (r: Ptr<T>)
        ensures
            r.spec_addr() == S::spec_get_ptr_addr(self.spec_raw()),
            r.spec_identity() == self.spec_identity(),
    {
        let (provenance, stored) = B::get_ptr(self.stored);
        let addr = S::get_ptr_addr(stored);
        provenance.with_addr(addr)
    }

    /// The stored tag.
    pub fn get_tag(&self) -> (r: S::Tag)
        ensures
            r == S::spec_get_tag(self.spec_raw()),
    {
        let stored = B::get_int(self.stored);
        S::get_tag(stored)
    }

    /// A cell with the tag replaced: the address and the identity are kept,
    /// and the new tag reads back exactly.
    pub fn set_tag(&self, tag: S::Tag) -> (r: Self)
        ensures
            r.spec_identity() == self.spec_identity(),
            r.spec_raw() == S::spec_set(S::spec_get_ptr_addr(self.spec_raw()), tag),
            S::spec_get_tag(r.spec_raw()) == tag,
            S::spec_get_ptr_addr(r.spec_raw()) == S::spec_get_ptr_addr(self.spec_raw()),
    {
        let (provenance, stored) = B::get_ptr(self.stored);
        let ptr_addr = S::get_ptr_addr(stored);
        proof {
            S::lemma_get_ptr_addr_valid(self.spec_raw());
            S::lemma_set_round_trip(S::spec_get_ptr_addr(self.spec_raw()), tag);
        }
        let addr = S::set(ptr_addr, tag);
        let stored = B::set_ptr(provenance, addr);
        TaggedPtr { stored, _marker: PhantomData }
    }
}

impl<T, S, B> Clone for TaggedPtr<T, S, B> where B: Backend<T> {
    fn clone(&self) -> (r: Self)
        ensures
            r == *self,
    {
        TaggedPtr { stored: self.stored, _marker: PhantomData }
    }
}

impl<T, S, B> Copy for TaggedPtr<T, S, B> where B: Backend<T> {

}

/// A boolean tag in the lowest address bit, for pointers to values of even
/// alignment.
pub struct LowBitTag;

impl TaggingStrategy<usize> for LowBitTag {
    type Tag = bool;

    /// Even addresses: the lowest bit is spare.
    open spec fn spec_valid_addr(addr: usize) -> bool {
        addr % 2 == 0
    }

    open spec fn spec_get_tag(data: usize) -> bool {
        data & 1 == 1
    }

    open spec fn spec_get_ptr_addr(data: usize) -> usize {
        data & !1usize
    }

    open spec fn spec_set(addr: usize, tag: bool) -> usize {
        if tag {
            addr | 1
        } else {
            addr
        }
    }

    proof fn lemma_set_round_trip(addr: usize, tag: bool) {
        if tag {
            assert((addr | 1) & 1 == 1) by (bit_vector);
            assert((addr | 1) & !1usize == addr) by (bit_vector)
                requires
                    addr % 2 == 0,
            ;
        } else {
            assert(addr & 1 != 1 && addr & !1usize == addr) by (bit_vector)
                requires
                    addr % 2 == 0,
            ;
        }
    }

    proof fn lemma_get_ptr_addr_valid(data: usize) {
        assert((data & !1usize) % 2 == 0) by (bit_vector);
    }

    fn get_tag(data: usize) -> (r: bool) {
        data & 1 == 1
    }

    fn get_ptr_addr(data: usize) -> (r: usize) {
        data & !1usize
    }

    fn set(addr: usize, tag: bool) -> (r: usize) {
        if tag {
            addr | 1
        } else {
            addr
        }
    }
}

} // verus!
