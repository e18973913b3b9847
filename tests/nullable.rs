use maybe_null::nullable::{MaybeNull, NonNull};
use std::collections::HashSet;

#[test]
fn new_with_nonzero_address_is_present() {
    let p = MaybeNull::<u32>::new(0x1000);
    assert!(!p.is_null());
    assert_eq!(p.addr(), 0x1000);
    assert_eq!(p.get_unchecked(), 0x1000);
    assert_eq!(p.get().map(|h| h.addr()), Some(0x1000));
}

#[test]
fn new_with_zero_address_is_absent() {
    let p = MaybeNull::<u32>::new(0);
    assert!(p.is_null());
    assert!(p.get().is_none());
    assert_eq!(p.addr(), 0);
    assert!(p == MaybeNull::null());
}

#[test]
fn null_is_absent() {
    let p = MaybeNull::<String>::null();
    assert!(p.is_null());
    assert!(p.get().is_none());
    assert_eq!(p.get_unchecked(), 0);
}

#[test]
fn from_non_null_is_present() {
    let h = NonNull::<u64>::new(0x40).unwrap();
    let p = MaybeNull::from_non_null(h);
    assert!(!p.is_null());
    assert_eq!(p.addr(), 0x40);
    assert!(p.get() == Some(h));
}

#[test]
fn non_null_rejects_zero() {
    assert!(NonNull::<u8>::new(0).is_none());
    assert_eq!(NonNull::<u8>::new(7).map(|h| h.addr()), Some(7));
}

#[test]
fn dangling_is_aligned_and_present() {
    let p = MaybeNull::<u64>::dangling();
    assert!(!p.is_null());
    assert_eq!(p.addr(), std::mem::align_of::<u64>());
    assert_eq!(NonNull::<u32>::dangling().addr(), std::mem::align_of::<u32>());
}

#[test]
fn provenance_constructors_keep_the_address() {
    assert_eq!(MaybeNull::<u8>::with_exposed_provenance(0x2000).addr(), 0x2000);
    assert_eq!(MaybeNull::<u8>::without_provenance(0x3000).addr(), 0x3000);
    assert!(MaybeNull::<u8>::with_exposed_provenance(0).is_null());
    assert!(MaybeNull::<u8>::without_provenance(0).is_null());
}

#[test]
fn cast_round_trip_keeps_the_address() {
    let p = MaybeNull::<u32>::new(0xdead_beef);
    let q: MaybeNull<[u8; 3]> = p.cast();
    assert_eq!(q.addr(), 0xdead_beef);
    let back: MaybeNull<u32> = q.cast();
    assert!(back == p);
    assert!(MaybeNull::<u32>::null().cast::<u8>().is_null());
    assert_eq!(NonNull::<u32>::new(9).unwrap().cast::<u64>().addr(), 9);
}

#[test]
fn nullify_twice_leaves_absent() {
    let mut p = MaybeNull::<u16>::new(0x80);
    p.nullify();
    assert!(p.is_null());
    p.nullify();
    assert!(p.is_null());
    assert_eq!(p.addr(), 0);
}

#[test]
fn set_twice_keeps_the_address() {
    let h = NonNull::<u16>::new(0x90).unwrap();
    let mut p = MaybeNull::<u16>::null();
    p.set(h);
    assert_eq!(p.addr(), 0x90);
    p.set(h);
    assert_eq!(p.addr(), 0x90);
    assert!(!p.is_null());
}

#[test]
fn equality_and_order_follow_the_address() {
    let a = MaybeNull::<u8>::new(0x10);
    let b = MaybeNull::<u8>::new(0x20);
    let n = MaybeNull::<u8>::null();
    assert!(a == MaybeNull::new(0x10));
    assert!(a != b);
    assert!(a < b);
    assert!(n < a);
    assert_eq!(a.partial_cmp(&a), Some(std::cmp::Ordering::Equal));
    let c = a;
    assert!(c == a.clone());
}

#[test]
fn wrapping_byte_add_wraps_past_the_end() {
    let p = MaybeNull::<u8>::new(usize::MAX);
    assert_eq!(p.wrapping_byte_add(2).addr(), 1);
    assert!(p.wrapping_byte_add(1).is_null());
}

#[test]
fn wrapping_add_counts_elements_and_wraps() {
    let p = MaybeNull::<u32>::new(usize::MAX - 3);
    assert_eq!(p.wrapping_add(2).addr(), 4);
    assert_eq!(MaybeNull::<u32>::new(0x100).wrapping_add(3).addr(), 0x10c);
    assert_eq!(MaybeNull::<u32>::null().wrapping_add(1).addr(), 4);
}

#[test]
fn wrapping_sub_wraps_below_zero() {
    assert_eq!(MaybeNull::<u16>::null().wrapping_sub(1).addr(), usize::MAX - 1);
    assert_eq!(MaybeNull::<u16>::null().wrapping_byte_sub(1).addr(), usize::MAX);
    assert_eq!(MaybeNull::<u16>::new(0x10).wrapping_sub(2).addr(), 0xc);
    assert_eq!(MaybeNull::<u16>::new(0x10).wrapping_byte_sub(2).addr(), 0xe);
}

#[test]
fn in_bounds_element_arithmetic() {
    let p = MaybeNull::<u32>::new(0x100);
    assert_eq!(p.add(3).addr(), 0x10c);
    assert_eq!(p.sub(1).addr(), 0xfc);
    assert_eq!(p.offset(-2).addr(), 0xf8);
    assert_eq!(p.offset(2).addr(), 0x108);
    assert_eq!(p.add(0).addr(), 0x100);
}

#[test]
fn in_bounds_byte_arithmetic() {
    let p = MaybeNull::<u32>::new(0x100);
    assert_eq!(p.byte_add(5).addr(), 0x105);
    assert_eq!(p.byte_offset(-1).addr(), 0xff);
    assert_eq!(p.byte_offset(3).addr(), 0x103);
    assert!(p.byte_sub(0x100).is_null());
}

#[test]
fn offset_by_most_negative_count() {
    let p = MaybeNull::<u8>::new(usize::MAX);
    assert_eq!(p.byte_offset(isize::MIN).addr(), usize::MAX - (isize::MIN.unsigned_abs()));
}

#[test]
fn hash_follows_the_address() {
    let mut seen = HashSet::new();
    assert!(seen.insert(MaybeNull::<u8>::new(0x10)));
    assert!(!seen.insert(MaybeNull::<u8>::new(0x10)));
    assert!(seen.insert(MaybeNull::<u8>::null()));
    assert!(!seen.insert(MaybeNull::<u8>::new(0)));
    let mut handles = HashSet::new();
    assert!(handles.insert(NonNull::<u8>::new(3).unwrap()));
    assert!(!handles.insert(NonNull::<u8>::new(3).unwrap()));
}

#[test]
fn debug_shows_the_address() {
    let text = format!("{:?}", MaybeNull::<u8>::new(0x2a));
    assert!(text.contains("42"));
}
