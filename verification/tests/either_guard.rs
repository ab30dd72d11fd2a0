use stuff::AllowAlias;
use stuff::Either;
use stuff::Guard;

#[test]
fn either_ptr_accessor() {
    let e: Either<usize, u32> = Either::Ptr(5);
    assert_eq!(e.ptr(), Some(5));
    let e: Either<usize, u32> = Either::Other(9);
    assert_eq!(e.ptr(), None);
}

#[test]
fn either_other_accessor() {
    let e: Either<usize, u32> = Either::Other(9);
    assert_eq!(e.other(), Some(9));
    let e: Either<usize, u32> = Either::Ptr(5);
    assert_eq!(e.other(), None);
}

#[test]
fn either_map_ptr() {
    let e: Either<usize, u32> = Either::Ptr(5);
    let mapped = e.map_ptr(|p| p + 1);
    assert_eq!(mapped, Either::Ptr(6));
    let e: Either<usize, u32> = Either::Other(9);
    let mapped = e.map_ptr(|p| p + 1);
    assert_eq!(mapped, Either::Other(9));
}

#[test]
fn either_map_other() {
    let e: Either<usize, u32> = Either::Other(9);
    let mapped = e.map_other(|o| o * 2);
    assert_eq!(mapped, Either::Other(18));
    let e: Either<usize, u32> = Either::Ptr(5);
    let mapped = e.map_other(|o| o * 2);
    assert_eq!(mapped, Either::Ptr(5));
}

#[test]
fn guard_carries_value() {
    let g: Guard<'_, u32> = Guard::new(77);
    assert_eq!(*g.inner(), 77);
    assert_eq!(g.into_inner(), 77);
}

#[test]
fn allow_alias_round_trip() {
    let a = AllowAlias::new(13u64);
    assert_eq!(a.into_inner(), 13);
}
