use uuid::{Builder, Uuid};

fn hyphenated(uuid: Uuid) -> String {
    String::from_utf8(uuid.encode_hyphenated().to_vec()).unwrap()
}

#[test]
fn nil_and_max_in_text() {
    assert_eq!("00000000-0000-0000-0000-000000000000", hyphenated(Uuid::nil()));
    assert_eq!("ffffffff-ffff-ffff-ffff-ffffffffffff", hyphenated(Uuid::max()));
    assert_eq!("00000000-0000-0000-0000-000000000000", hyphenated(Builder::nil().into_uuid()));
}

#[test]
fn fields_in_text() {
    let d4: [u8; 8] = [0xd1, 0xd2, 0xd3, 0xd4, 0xd5, 0xd6, 0xd7, 0xd8];
    assert_eq!(
        "a1a2a3a4-b1b2-c1c2-d1d2-d3d4d5d6d7d8",
        hyphenated(Uuid::from_fields(0xa1a2a3a4, 0xb1b2, 0xc1c2, &d4))
    );
    assert_eq!(
        "a4a3a2a1-b2b1-c2c1-d1d2-d3d4d5d6d7d8",
        hyphenated(Uuid::from_fields_le(0xa1a2a3a4, 0xb1b2, 0xc1c2, &d4))
    );
}

#[test]
fn numbers_in_text() {
    let v: u128 = 0xa1a2a3a4b1b2c1c2d1d2d3d4d5d6d7d8;
    assert_eq!("a1a2a3a4-b1b2-c1c2-d1d2-d3d4d5d6d7d8", hyphenated(Uuid::from_u128(v)));
    assert_eq!("d8d7d6d5-d4d3-d2d1-c2c1-b2b1a4a3a2a1", hyphenated(Uuid::from_u128_le(v)));
    assert_eq!(
        "a1a2a3a4-b1b2-c1c2-d1d2-d3d4d5d6d7d8",
        hyphenated(Uuid::from_u64_pair(0xa1a2a3a4b1b2c1c2, 0xd1d2d3d4d5d6d7d8))
    );
    assert_eq!("d8d7d6d5-d4d3-d2d1-c2c1-b2b1a4a3a2a1", hyphenated(Builder::from_u128_le(v).into_uuid()));
}

#[test]
fn bytes_in_text() {
    let bytes: [u8; 16] = [
        0xa1, 0xa2, 0xa3, 0xa4, 0xb1, 0xb2, 0xc1, 0xc2, 0xd1, 0xd2, 0xd3, 0xd4, 0xd5, 0xd6, 0xd7,
        0xd8,
    ];
    assert_eq!("a1a2a3a4-b1b2-c1c2-d1d2-d3d4d5d6d7d8", hyphenated(Uuid::from_bytes(bytes)));
    assert_eq!("a4a3a2a1-b2b1-c2c1-d1d2-d3d4d5d6d7d8", hyphenated(Uuid::from_bytes_le(bytes)));
    assert_eq!(
        "a1a2a3a4-b1b2-c1c2-d1d2-d3d4d5d6d7d8",
        hyphenated(Uuid::from_slice(&bytes).unwrap())
    );
    assert_eq!(
        "a4a3a2a1-b2b1-c2c1-d1d2-d3d4d5d6d7d8",
        hyphenated(Uuid::from_slice_le(&bytes).unwrap())
    );
    assert_eq!(
        "a1a2a3a4-b1b2-c1c2-d1d2-d3d4d5d6d7d8",
        hyphenated(Uuid::from_bytes_ref(&bytes).to_uuid())
    );
}

#[test]
fn every_digit_in_text() {
    assert_eq!(
        "01234567-89ab-cdef-fedc-ba9876543210",
        hyphenated(Uuid::from_u128(0x0123_4567_89ab_cdef_fedc_ba98_7654_3210))
    );
}

#[test]
fn timestamps_in_text() {
    let node: [u8; 6] = [1, 2, 3, 4, 5, 6];
    let ticks: u64 = 0x1e7_4ba2_2061_6934;
    assert_eq!(
        "20616934-4ba2-11e7-8000-010203040506",
        hyphenated(Builder::from_rfc4122_timestamp(ticks, 0, &node).into_uuid())
    );
    assert_eq!(
        "1e74ba22-0616-6934-8000-010203040506",
        hyphenated(Builder::from_sorted_rfc4122_timestamp(ticks, 0, &node).into_uuid())
    );
}
