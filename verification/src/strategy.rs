use vstd::prelude::*;

use crate::either::Either;

verus! {

/// The policy that decides how address bits and alternate-payload bits share
/// one storage integer `B`, and how a read classifies which of the two is
/// present.
///
/// Every strategy carries its laws as proof obligations: encoding an address
/// in the strategy's valid domain and decoding classifies back to exactly
/// that address; encoding a valid payload and decoding recovers exactly that
/// payload; and whatever a decode classifies lies back inside the valid
/// domain, so it can be re-encoded without loss. Addresses whose bit
/// patterns collide with the payload encoding are kept out by
/// [`StuffingStrategy::spec_valid_addr`]; the cell never checks this at run
/// time, it relies on the proved laws.
pub trait StuffingStrategy<B>: Sized {
    /// The type of the alternate payload.
    type Other;

    /// The addresses this strategy round-trips.
    spec fn spec_valid_addr(addr: usize) -> bool;

    /// The payloads this strategy round-trips.
    spec fn spec_valid_other(other: Self::Other) -> bool;

    /// The bit pattern that encodes the payload `other`.
    spec fn spec_stuff_other(other: Self::Other) -> B;

    /// The bit pattern that encodes the address `addr`.
    spec fn spec_stuff_ptr(addr: usize) -> B;

    /// Classification and reconstruction in one step: what `data` holds.
    spec fn spec_extract(data: B) -> Either<usize, Self::Other>;

    /// Law: a valid address survives an encode followed by a decode.
    proof fn lemma_stuff_ptr_round_trip(addr: usize)
        requires
            Self::spec_valid_addr(addr),
        ensures
            Self::spec_extract(Self::spec_stuff_ptr(addr)) == Either::<usize, Self::Other>::Ptr(
                addr,
            ),
    ;

    /// Law: a valid payload survives an encode followed by a decode.
    proof fn lemma_stuff_other_round_trip(other: Self::Other)
        requires
            Self::spec_valid_other(other),
        ensures
            Self::spec_extract(Self::spec_stuff_other(other)) == Either::<
                usize,
                Self::Other,
            >::Other(other),
    ;

    /// Law: whatever a decode classifies lies inside the valid domain.
    proof fn lemma_extract_in_domain(data: B)
        ensures
            (match Self::spec_extract(data) {
                Either::Ptr(addr) => Self::spec_valid_addr(addr),
                Either::Other(other) => Self::spec_valid_other(other),
            }),
    ;

    /// Stuff the payload into a storage integer. Conceptually moves the
    /// payload into the bit pattern; infallible.
    fn stuff_other(other: Self::Other) -> (r: B)
        ensures
            r == Self::spec_stuff_other(other),
    ;

    /// Decode a storage integer: classify it and reconstruct either the
    /// address or the payload.
    fn extract(data: B) -> (r: Either<usize, Self::Other>)
        ensures
            r == Self::spec_extract(data),
    ;

    /// Stuff an address into a storage integer. Infallible.
    fn stuff_ptr(addr: usize) -> (r: B)
        ensures
            r == Self::spec_stuff_ptr(addr),
    ;

    /// Decide equality of two payload values.
    fn other_eq(a: &Self::Other, b: &Self::Other) -> (r: bool)
        ensures
            r == (*a == *b),
    ;
}

/// The no-op strategy: no payload ever, every read classifies as an address.
impl StuffingStrategy<usize> for () {
    type Other = ();

    open spec fn spec_valid_addr(addr: usize) -> bool {
        true
    }

    open spec fn spec_valid_other(other: ()) -> bool {
        false
    }

    open spec fn spec_stuff_other(other: ()) -> usize {
        0
    }

    open spec fn spec_stuff_ptr(addr: usize) -> usize {
        addr
    }

    open spec fn spec_extract(data: usize) -> Either<usize, ()> {
        Either::Ptr(data)
    }

    proof fn lemma_stuff_ptr_round_trip(addr: usize) {
    }

    proof fn lemma_stuff_other_round_trip(other: ()) {
    }

    proof fn lemma_extract_in_domain(data: usize) {
    }

    fn stuff_other(other: ()) -> (r: usize) {
        0
    }

    fn extract(data: usize) -> (r: Either<usize, ()>) {
        Either::Ptr(data)
    }

    fn stuff_ptr(addr: usize) -> (r: usize) {
        addr
    }

    fn other_eq(a: &(), b: &()) -> (r: bool) {
        true
    }
}

impl StuffingStrategy<u64> for () {
    type Other = ();

    open spec fn spec_valid_addr(addr: usize) -> bool {
        true
    }

    open spec fn spec_valid_other(other: ()) -> bool {
        false
    }

    open spec fn spec_stuff_other(other: ()) -> u64 {
        0
    }

    open spec fn spec_stuff_ptr(addr: usize) -> u64 {
        addr as u64
    }

    open spec fn spec_extract(data: u64) -> Either<usize, ()> {
        Either::Ptr(data as usize)
    }

    proof fn lemma_stuff_ptr_round_trip(addr: usize) {
        assert(((addr as u64) as usize) == addr) by (bit_vector);
    }

    proof fn lemma_stuff_other_round_trip(other: ()) {
    }

    proof fn lemma_extract_in_domain(data: u64) {
    }

    fn stuff_other(other: ()) -> (r: u64) {
        0
    }

    fn extract(data: u64) -> (r: Either<usize, ()>) {
        Either::Ptr(data as usize)
    }

    fn stuff_ptr(addr: usize) -> (r: u64) {
        addr as u64
    }

    fn other_eq(a: &(), b: &()) -> (r: bool) {
        true
    }
}

impl StuffingStrategy<u128> for () {
    type Other = ();

    open spec fn spec_valid_addr(addr: usize) -> bool {
        true
    }

    open spec fn spec_valid_other(other: ()) -> bool {
        false
    }

    open spec fn spec_stuff_other(other: ()) -> u128 {
        0
    }

    open spec fn spec_stuff_ptr(addr: usize) -> u128 {
        addr as u128
    }

    open spec fn spec_extract(data: u128) -> Either<usize, ()> {
        Either::Ptr(data as usize)
    }

    proof fn lemma_stuff_ptr_round_trip(addr: usize) {
        assert(((addr as u128) as usize) == addr) by (bit_vector);
    }

    proof fn lemma_stuff_other_round_trip(other: ()) {
    }

    proof fn lemma_extract_in_domain(data: u128) {
    }

    fn stuff_other(other: ()) -> (r: u128) {
        0
    }

    fn extract(data: u128) -> (r: Either<usize, ()>) {
        Either::Ptr(data as usize)
    }

    fn stuff_ptr(addr: usize) -> (r: u128) {
        addr as u128
    }

    fn other_eq(a: &(), b: &()) -> (r: bool) {
        true
    }
}

} // verus!
