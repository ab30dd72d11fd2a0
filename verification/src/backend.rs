use vstd::prelude::*;

use crate::ptr::Ptr;

verus! {

/// A backend fixes the physical storage shape of a stuffed cell for one
/// integer width `Self`, and bridges losslessly between "a pointer with its
/// identity" and "a plain integer of that width".
///
/// `Stored` composes one identity-carrying pointer with zero or more plain
/// integer slices whose widths add up to the width of `Self`. Writing a value
/// together with an identity and reading the cell back returns exactly that
/// value and that identity. The numeric address inside the pointer component
/// is one slice of the stored integer: it is meaningful only through
/// [`Backend::spec_value`], never on its own.
pub trait Backend<T>: Sized + Copy {
    /// The underlying storage: an identity-carrying pointer, padded with
    /// integer slices up to the width of `Self`.
    type Stored: Copy;

    /// The integer of width `Self` that `s` holds.
    spec fn spec_value(s: Self::Stored) -> Self;

    /// The identity token that `s` carries.
    spec fn spec_identity(s: Self::Stored) -> usize;

    /// The identity-carrying pointer and the full stored integer. The numeric
    /// address of the returned pointer is unspecified; only its identity is
    /// meaningful, and the full integer is returned separately.
    fn get_ptr(s: Self::Stored) -> (r: (Ptr<T>, Self))
        ensures
            r.0.spec_identity() == Self::spec_identity(s),
            r.1 == Self::spec_value(s),
    ;

    /// Commit the integer `addr` into storage, attaching the identity of
    /// `provenance`. Infallible: every value of `Self` round-trips.
    fn set_ptr(provenance: Ptr<T>, addr: Self) -> (r: Self::Stored)
        ensures
            Self::spec_identity(r) == provenance.spec_identity(),
            Self::spec_value(r) == addr,
    ;

    /// The stored integer alone, for classification and decoding; never for
    /// rebuilding a pointer, which needs the identity from
    /// [`Backend::get_ptr`].
    fn get_int(s: Self::Stored) -> (r: Self)
        ensures
            r == Self::spec_value(s),
    ;
}

/// Storage of the 64-bit backend: the top 32 bits in the pointer's address
/// slice, the low 32 bits in a plain integer.
#[verifier::reject_recursive_types(T)]
pub struct Stored64<T> {
    ptr: Ptr<T>,
    lo: u32,
}

impl<T> Clone for Stored64<T> {
    fn clone(&self) -> (r: Self)
        ensures
            r == *self,
    {
        Stored64 { ptr: self.ptr, lo: self.lo }
    }
}

impl<T> Copy for Stored64<T> {}

/// Storage of the 128-bit backend: the top 32 bits in the pointer's address
/// slice, the middle 32 and low 64 bits in plain integers.
#[verifier::reject_recursive_types(T)]
pub struct Stored128<T> {
    ptr: Ptr<T>,
    mid: u32,
    lo: u64,
}

impl<T> Clone for Stored128<T> {
    fn clone(&self) -> (r: Self)
        ensures
            r == *self,
    {
        Stored128 { ptr: self.ptr, mid: self.mid, lo: self.lo }
    }
}

impl<T> Copy for Stored128<T> {}

/// Address-width storage: the whole integer lives in the pointer's own
/// address slice, so `Stored` is just the modeled pointer.
impl<T> Backend<T> for usize {
    type Stored = Ptr<T>;

    open spec fn spec_value(s: Ptr<T>) -> usize {
        s.spec_addr()
    }

    open spec fn spec_identity(s: Ptr<T>) -> usize {
        s.spec_identity()
    }

    fn get_ptr(s: Ptr<T>) -> (r: (Ptr<T>, usize)) {
        (s, s.addr())
    }

    fn set_ptr(provenance: Ptr<T>, addr: usize) -> (r: Ptr<T>) {
        provenance.with_addr(addr)
    }

    fn get_int(s: Ptr<T>) -> (r: usize) {
        s.addr()
    }
}

/// 64-bit storage, sliced as (pointer slice: top 32 bits, plain slice: low
/// 32 bits), so the pointer slice fits every address width.
impl<T> Backend<T> for u64 {
    type Stored = Stored64<T>;

    closed spec fn spec_value(s: Stored64<T>) -> u64 {
        ((s.ptr.spec_addr() as u64) << 32) | (s.lo as u64)
    }

    closed spec fn spec_identity(s: Stored64<T>) -> usize {
        s.ptr.spec_identity()
    }

    fn get_ptr(s: Stored64<T>) -> (r: (Ptr<T>, u64)) {
        (s.ptr, <u64 as Backend<T>>::get_int(s))
    }

    fn set_ptr(provenance: Ptr<T>, addr: u64) -> (r: Stored64<T>) {
        let hi: usize = (addr >> 32) as usize;
        let lo: u32 = addr as u32;
        proof {
            assert(((((addr >> 32) as usize) as u64) << 32) | ((addr as u32) as u64) == addr)
                by (bit_vector);
        }
        Stored64 { ptr: provenance.with_addr(hi), lo }
    }

    fn get_int(s: Stored64<T>) -> (r: u64) {
        ((s.ptr.addr() as u64) << 32) | (s.lo as u64)
    }
}

/// 128-bit storage, sliced as (pointer slice: top 32 bits, plain slices:
/// middle 32 and low 64 bits).
impl<T> Backend<T> for u128 {
    type Stored = Stored128<T>;

    closed spec fn spec_value(s: Stored128<T>) -> u128 {
        ((s.ptr.spec_addr() as u128) << 96) | ((s.mid as u128) << 64) | (s.lo as u128)
    }

    closed spec fn spec_identity(s: Stored128<T>) -> usize {
        s.ptr.spec_identity()
    }

    fn get_ptr(s: Stored128<T>) -> (r: (Ptr<T>, u128)) {
        (s.ptr, <u128 as Backend<T>>::get_int(s))
    }

    fn set_ptr(provenance: Ptr<T>, addr: u128) -> (r: Stored128<T>) {
        let hi: usize = (addr >> 96) as usize;
        let mid: u32 = (addr >> 64) as u32;
        let lo: u64 = addr as u64;
        proof {
            assert(((((addr >> 96) as usize) as u128) << 96) | ((((addr >> 64) as u32) as u128)
                << 64) | ((addr as u64) as u128) == addr) by (bit_vector);
        }
        Stored128 { ptr: provenance.with_addr(hi), mid, lo }
    }

    fn get_int(s: Stored128<T>) -> (r: u128) {
        ((s.ptr.addr() as u128) << 96) | ((s.mid as u128) << 64) | (s.lo as u128)
    }
}

} // verus!
