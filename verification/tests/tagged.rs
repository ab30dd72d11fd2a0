use stuff::ptr::Ptr;
use stuff::tag::LowBitTag;
use stuff::tag::TaggedPtr;

#[test]
fn tag_and_address_round_trip() {
    let p = Ptr::<u16>::new(5, 64);
    let t: TaggedPtr<u16, LowBitTag, usize> = TaggedPtr::new(p, true);
    assert_eq!(t.get_tag(), true);
    let q = t.get_ptr();
    assert_eq!(q.addr(), 64);
    assert_eq!(q.identity(), 5);
}

#[test]
fn tag_false_leaves_address_bits() {
    let p = Ptr::<u16>::new(1, 1024);
    let t: TaggedPtr<u16, LowBitTag, usize> = TaggedPtr::new(p, false);
    assert_eq!(t.get_tag(), false);
    assert_eq!(t.get_ptr().addr(), 1024);
}

#[test]
fn set_tag_replaces_tag_keeps_address() {
    let p = Ptr::<u16>::new(3, 4096);
    let t: TaggedPtr<u16, LowBitTag, usize> = TaggedPtr::new(p, true);
    let t2 = t.set_tag(false);
    assert_eq!(t2.get_tag(), false);
    assert_eq!(t2.get_ptr().addr(), 4096);
    assert_eq!(t2.get_ptr().identity(), 3);
    let t3 = t2.set_tag(true);
    assert_eq!(t3.get_tag(), true);
    assert_eq!(t3.get_ptr().addr(), 4096);
    // `t` itself is unchanged: set_tag builds a fresh cell
    assert_eq!(t.get_tag(), true);
}

#[test]
fn tagged_ptr_is_copy() {
    let p = Ptr::<u16>::new(2, 32);
    let t: TaggedPtr<u16, LowBitTag, usize> = TaggedPtr::new(p, true);
    let u = t;
    assert_eq!(t.get_tag(), u.get_tag());
    assert_eq!(t.get_ptr().addr(), u.get_ptr().addr());
}
