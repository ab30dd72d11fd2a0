use stuff::ptr::Ptr;
use stuff::strategies::EmptyInMax;
use stuff::strategies::FloatBits;
use stuff::strategies::NanBoxStrategy;
use stuff::Either;
use stuff::StuffedPtr;

// Scenario: address-width backend, sentinel at the maximum value, unit-like
// payload.
#[test]
fn sentinel_at_max_scenario() {
    let cell: StuffedPtr<(), EmptyInMax, usize> = StuffedPtr::new_other(EmptyInMax);
    assert_eq!(cell.get_other(), Some(EmptyInMax));
    assert!(cell.get_ptr().is_none());

    // any address other than the sentinel pattern round-trips
    let p = Ptr::<()>::new(1, 0x1000);
    let cell: StuffedPtr<(), EmptyInMax, usize> = StuffedPtr::new_ptr(p);
    let got = cell.get_ptr().unwrap();
    assert_eq!(got.addr(), 0x1000);
    assert!(cell.get_other().is_none());
}

// Scenario: wide backend, floating-point boxing.
#[test]
fn nan_boxing_scenario() {
    let f = FloatBits { bits: 123.5f64.to_bits() };
    let cell: StuffedPtr<(), NanBoxStrategy, u64> = StuffedPtr::new_other(f);
    let got = cell.get_other().unwrap();
    assert_eq!(got.bits, 123.5f64.to_bits());
    assert_eq!(f64::from_bits(got.bits), 123.5);
    assert!(cell.get_ptr().is_none());

    let p = Ptr::<()>::new(8, 0x2000);
    let cell: StuffedPtr<(), NanBoxStrategy, u64> = StuffedPtr::new_ptr(p);
    let got = cell.get_ptr().unwrap();
    assert_eq!(got.addr(), 0x2000);
    assert_eq!(got.identity(), 8);
    assert!(cell.get_other().is_none());
}

#[test]
fn nan_boxing_zero_and_negative_floats() {
    for x in [0.0f64, -0.0, 1.0, -123.5, 1e300, f64::MIN_POSITIVE] {
        let cell: StuffedPtr<(), NanBoxStrategy, u64> =
            StuffedPtr::new_other(FloatBits { bits: x.to_bits() });
        assert_eq!(cell.get_other().unwrap().bits, x.to_bits());
        assert!(cell.get_ptr().is_none());
    }
}

// A payload inside the reserved quiet-NaN class cannot round-trip: it decodes
// as an address. This is the strategy's documented blind spot.
#[test]
fn nan_boxing_reserved_class_payload_decodes_as_address() {
    let in_reserved_class = FloatBits { bits: 0xFFFC_0000_0000_0001 };
    let cell: StuffedPtr<(), NanBoxStrategy, u64> = StuffedPtr::new_other(in_reserved_class);
    assert!(cell.get_other().is_none());
    assert!(cell.get_ptr().is_some());
}

// The no-op strategy: there is no payload; every cell reads as an address.
#[test]
fn unit_strategy_always_address() {
    let p = Ptr::<i32>::new(2, 0x3000);
    let cell: StuffedPtr<i32, (), usize> = StuffedPtr::new_ptr(p);
    let got = cell.get_ptr().unwrap();
    assert_eq!(got.addr(), 0x3000);
    assert_eq!(got.identity(), 2);
    assert!(cell.get_other().is_none());

    let cell: StuffedPtr<i32, (), usize> = StuffedPtr::new_other(());
    assert!(cell.get_other().is_none());
    assert!(cell.get_ptr().is_some());
}

#[test]
fn unit_strategy_wide_backends() {
    let p = Ptr::<i32>::new(2, 0x4000);
    let cell: StuffedPtr<i32, (), u64> = StuffedPtr::new_ptr(p);
    assert_eq!(cell.get_ptr().unwrap().addr(), 0x4000);
    let cell: StuffedPtr<i32, (), u128> = StuffedPtr::new_ptr(p);
    assert_eq!(cell.get_ptr().unwrap().addr(), 0x4000);
}

// The sentinel pattern itself, stuffed as an address, is outside the valid
// domain: it decodes as the payload instead. The round-trip promise holds
// only left of the sentinel.
#[test]
fn sentinel_collision_is_out_of_domain() {
    let p = Ptr::<i32>::new(1, usize::MAX);
    let cell: StuffedPtr<i32, EmptyInMax, usize> = StuffedPtr::new_ptr(p);
    assert!(cell.get_ptr().is_none());
    assert_eq!(cell.get_other(), Some(EmptyInMax));
}

#[test]
fn zero_address_round_trips() {
    let p = Ptr::<i32>::new(1, 0);
    let cell: StuffedPtr<i32, EmptyInMax, usize> = StuffedPtr::new_ptr(p);
    let got = cell.get_ptr().unwrap();
    assert_eq!(got.addr(), 0);

    let cell: StuffedPtr<i32, NanBoxStrategy, u64> = StuffedPtr::new_ptr(Ptr::new(1, 0));
    assert_eq!(cell.get_ptr().unwrap().addr(), 0);
}

#[test]
fn largest_valid_sentinel_address_round_trips() {
    let p = Ptr::<i32>::new(1, usize::MAX - 1);
    let cell: StuffedPtr<i32, EmptyInMax, usize> = StuffedPtr::new_ptr(p);
    assert_eq!(cell.get_ptr().unwrap().addr(), usize::MAX - 1);
    assert!(cell.get_other().is_none());
}

#[test]
fn into_inner_nan_boxing() {
    let cell: StuffedPtr<(), NanBoxStrategy, u64> =
        StuffedPtr::new_other(FloatBits { bits: 2.25f64.to_bits() });
    match cell.into_inner() {
        Either::Ptr(_) => panic!("expected the other variant"),
        Either::Other(f) => assert_eq!(f64::from_bits(f.bits), 2.25),
    }
}
