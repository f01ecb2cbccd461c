use std::cmp::Ordering;
use uuid::{NonNilUuid, Uuid};

#[test]
fn identifiers_are_equal_when_their_bytes_are() {
    let a: Uuid = Uuid::from_u128(0x0102_0304_0506_0708_090a_0b0c_0d0e_0f10);
    let b: Uuid = Uuid::from_bytes([1, 2, 3, 4, 5, 6, 7, 8, 9, 10, 11, 12, 13, 14, 15, 16]);
    let c: Uuid = Uuid::from_bytes([1, 2, 3, 4, 5, 6, 7, 8, 9, 10, 11, 12, 13, 14, 15, 17]);
    assert!(a == b);
    assert!(a != c);
    assert_eq!(a, b);
    assert_ne!(a, c);
}

#[test]
fn identifiers_are_ordered_by_their_first_differing_byte() {
    let low: Uuid = Uuid::from_bytes([0, 0xff, 0xff, 0xff, 0, 0, 0, 0, 0, 0, 0, 0, 0, 0, 0, 0]);
    let high: Uuid = Uuid::from_bytes([1, 0, 0, 0, 0, 0, 0, 0, 0, 0, 0, 0, 0, 0, 0, 0]);
    assert!(low < high);
    assert!(high > low);
    assert!(low <= low);
    assert_eq!(low.partial_cmp(&high), Some(Ordering::Less));
    assert_eq!(high.partial_cmp(&low), Some(Ordering::Greater));
    assert_eq!(low.partial_cmp(&low), Some(Ordering::Equal));
    assert_eq!(low.cmp(&high), Ordering::Less);
    assert_eq!(high.cmp(&low), Ordering::Greater);
    assert_eq!(high.cmp(&high), Ordering::Equal);
    let last: Uuid = Uuid::from_bytes([1, 0, 0, 0, 0, 0, 0, 0, 0, 0, 0, 0, 0, 0, 0, 1]);
    assert!(high < last);
    assert!(Uuid::nil() < Uuid::max());
}

#[test]
fn order_goes_with_the_number_in_rfc_order() {
    let numbers: [u128; 6] = [0, 1, 0xff, 0x100, 1 << 64, u128::MAX];
    for pair in numbers.windows(2) {
        let a: Uuid = Uuid::from_u128(pair[0]);
        let b: Uuid = Uuid::from_u128(pair[1]);
        assert!(a < b);
        assert_eq!(a.partial_cmp(&b), Some(a.cmp(&b)));
    }
}

#[test]
fn only_nil_is_refused_as_non_nil() {
    assert_eq!(NonNilUuid::new(Uuid::nil()), None);
    let one: Uuid = Uuid::from_u128(1);
    assert_eq!(NonNilUuid::new(one).map(NonNilUuid::get), Some(one));
    assert_eq!(NonNilUuid::new(Uuid::max()).map(NonNilUuid::get), Some(Uuid::max()));
}
