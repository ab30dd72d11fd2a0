use vstd::prelude::*;

use crate::either::Either;
use crate::strategy::StuffingStrategy;

verus! {

/// A zero-sized payload stuffed into the maximum representable value of the
/// storage integer: every other bit pattern is an address.
#[derive(Debug, Clone, Copy, PartialEq, Eq)]
pub struct EmptyInMax;

impl StuffingStrategy<usize> for EmptyInMax {
    type Other = EmptyInMax;

    /// Every address but the sentinel itself.
    open spec fn spec_valid_addr(addr: usize) -> bool {
        addr != usize::MAX
    }

    open spec fn spec_valid_other(other: EmptyInMax) -> bool {
        true
    }

    open spec fn spec_stuff_other(other: EmptyInMax) -> usize {
        usize::MAX
    }

    open spec fn spec_stuff_ptr(addr: usize) -> usize {
        addr
    }

    open spec fn spec_extract(data: usize) -> Either<usize, EmptyInMax> {
        if data == usize::MAX {
            Either::Other(EmptyInMax)
        } else {
            Either::Ptr(data)
        }
    }

    proof fn lemma_stuff_ptr_round_trip(addr: usize) {
    }

    proof fn lemma_stuff_other_round_trip(other: EmptyInMax) {
    }

    proof fn lemma_extract_in_domain(data: usize) {
    }

    fn stuff_other(other: EmptyInMax) -> (r: usize) {
        usize::MAX
    }

    fn extract(data: usize) -> (r: Either<usize, EmptyInMax>) {
        if data == usize::MAX {
            Either::Other(EmptyInMax)
        } else {
            Either::Ptr(data)
        }
    }

    fn stuff_ptr(addr: usize) -> (r: usize) {
        addr
    }

    fn other_eq(a: &EmptyInMax, b: &EmptyInMax) -> (r: bool) {
        true
    }
}

impl StuffingStrategy<u64> for EmptyInMax {
    type Other = EmptyInMax;

    /// Every address whose 64-bit image is not the sentinel.
    open spec fn spec_valid_addr(addr: usize) -> bool {
        (addr as u64) != u64::MAX
    }

    open spec fn spec_valid_other(other: EmptyInMax) -> bool {
        true
    }

    open spec fn spec_stuff_other(other: EmptyInMax) -> u64 {
        u64::MAX
    }

    open spec fn spec_stuff_ptr(addr: usize) -> u64 {
        addr as u64
    }

    open spec fn spec_extract(data: u64) -> Either<usize, EmptyInMax> {
        if data == u64::MAX {
            Either::Other(EmptyInMax)
        } else {
            Either::Ptr(data as usize)
        }
    }

    proof fn lemma_stuff_ptr_round_trip(addr: usize) {
        assert(((addr as u64) as usize) == addr) by (bit_vector);
    }

    proof fn lemma_stuff_other_round_trip(other: EmptyInMax) {
    }

    proof fn lemma_extract_in_domain(data: u64) {
        assert(data != u64::MAX ==> ((data as usize) as u64) != u64::MAX) by (bit_vector);
    }

    fn stuff_other(other: EmptyInMax) -> (r: u64) {
        u64::MAX
    }

    fn extract(data: u64) -> (r: Either<usize, EmptyInMax>) {
        if data == u64::MAX {
            Either::Other(EmptyInMax)
        } else {
            Either::Ptr(data as usize)
        }
    }

    fn stuff_ptr(addr: usize) -> (r: u64) {
        addr as u64
    }

    fn other_eq(a: &EmptyInMax, b: &EmptyInMax) -> (r: bool) {
        true
    }
}

impl StuffingStrategy<u128> for EmptyInMax {
    type Other = EmptyInMax;

    /// Every address whose 128-bit image is not the sentinel; that is every
    /// address, since an address never fills 128 bits.
    open spec fn spec_valid_addr(addr: usize) -> bool {
        (addr as u128) != u128::MAX
    }

    open spec fn spec_valid_other(other: EmptyInMax) -> bool {
        true
    }

    open spec fn spec_stuff_other(other: EmptyInMax) -> u128 {
        u128::MAX
    }

    open spec fn spec_stuff_ptr(addr: usize) -> u128 {
        addr as u128
    }

    open spec fn spec_extract(data: u128) -> Either<usize, EmptyInMax> {
        if data == u128::MAX {
            Either::Other(EmptyInMax)
        } else {
            Either::Ptr(data as usize)
        }
    }

    proof fn lemma_stuff_ptr_round_trip(addr: usize) {
        assert(((addr as u128) as usize) == addr) by (bit_vector);
    }

    proof fn lemma_stuff_other_round_trip(other: EmptyInMax) {
    }

    proof fn lemma_extract_in_domain(data: u128) {
        assert(data != u128::MAX ==> ((data as usize) as u128) != u128::MAX) by (bit_vector);
    }

    fn stuff_other(other: EmptyInMax) -> (r: u128) {
        u128::MAX
    }

    fn extract(data: u128) -> (r: Either<usize, EmptyInMax>) {
        if data == u128::MAX {
            Either::Other(EmptyInMax)
        } else {
            Either::Ptr(data as usize)
        }
    }

    fn stuff_ptr(addr: usize) -> (r: u128) {
        addr as u128
    }

    fn other_eq(a: &EmptyInMax, b: &EmptyInMax) -> (r: bool) {
        true
    }
}

/// The quiet-NaN mask of a 64-bit float: a pattern with all these bits set is
/// not a numeric float value, so they are free to mark stored addresses.
pub const QNAN: u64 = 0x7ffc000000000000;

/// The sign bit of a 64-bit float, set alongside [`QNAN`] on stored
/// addresses.
pub const SIGN_BIT: u64 = 0x8000000000000000;

/// A 64-bit float represented by its raw bit pattern, so the boxing policy is
/// pure, verifiable bit arithmetic.
#[derive(Debug, Clone, Copy, PartialEq, Eq)]
pub struct FloatBits {
    /// The bit pattern, as `f64::to_bits` gives it.
    pub bits: u64,
}

/// Boxing floats and pointers in one 64-bit word: a pattern with all
/// quiet-NaN bits and the sign bit set carries an address in its low bits;
/// every other pattern is the float it spells.
pub struct NanBoxStrategy;

impl StuffingStrategy<u64> for NanBoxStrategy {
    type Other = FloatBits;

    /// Addresses clear of the mask bits, so tagging and untagging lose
    /// nothing.
    open spec fn spec_valid_addr(addr: usize) -> bool {
        (addr as u64) & (SIGN_BIT | QNAN) == 0
    }

    /// Floats that are not themselves in the quiet-NaN class reserved for
    /// addresses. A payload inside that class — for one, the pattern with
    /// every bit set — would decode as an address.
    open spec fn spec_valid_other(other: FloatBits) -> bool {
        other.bits & QNAN != QNAN
    }

    open spec fn spec_stuff_other(other: FloatBits) -> u64 {
        other.bits
    }

    open spec fn spec_stuff_ptr(addr: usize) -> u64 {
        SIGN_BIT | QNAN | (addr as u64)
    }

    open spec fn spec_extract(data: u64) -> Either<usize, FloatBits> {
        if data & QNAN != QNAN {
            Either::Other(FloatBits { bits: data })
        } else {
            Either::Ptr((data & !(SIGN_BIT | QNAN)) as usize)
        }
    }

    proof fn lemma_stuff_ptr_round_trip(addr: usize) {
        assert((SIGN_BIT | QNAN | (addr as u64)) & QNAN == QNAN) by (bit_vector);
        assert(((SIGN_BIT | QNAN | (addr as u64)) & !(SIGN_BIT | QNAN)) as usize == addr)
            by (bit_vector)
            requires
                (addr as u64) & (SIGN_BIT | QNAN) == 0,
        ;
    }

    proof fn lemma_stuff_other_round_trip(other: FloatBits) {
    }

    proof fn lemma_extract_in_domain(data: u64) {
        assert((((data & !(SIGN_BIT | QNAN)) as usize) as u64) & (SIGN_BIT | QNAN) == 0)
            by (bit_vector);
    }

    fn stuff_other(other: FloatBits) -> (r: u64) {
        other.bits
    }

    fn extract(data: u64) -> (r: Either<usize, FloatBits>) {
        if data & QNAN != QNAN {
            Either::Other(FloatBits { bits: data })
        } else {
            Either::Ptr((data & !(SIGN_BIT | QNAN)) as usize)
        }
    }

    fn stuff_ptr(addr: usize) -> (r: u64) {
        SIGN_BIT | QNAN | (addr as u64)
    }

    fn other_eq(a: &FloatBits, b: &FloatBits) -> (r: bool) {
        a.bits == b.bits
    }
}

} // verus!
