use uuid::{Error, ErrorKind, Uuid};

const SAMPLE: [u8; 16] = [
    0xa1, 0xa2, 0xa3, 0xa4, 0xb1, 0xb2, 0xc1, 0xc2, 0xd1, 0xd2, 0xd3, 0xd4, 0xd5, 0xd6, 0xd7, 0xd8,
];

const SAMPLE_SWAPPED: [u8; 16] = [
    0xa4, 0xa3, 0xa2, 0xa1, 0xb2, 0xb1, 0xc2, 0xc1, 0xd1, 0xd2, 0xd3, 0xd4, 0xd5, 0xd6, 0xd7, 0xd8,
];

const TAIL: [u8; 8] = [0xd1, 0xd2, 0xd3, 0xd4, 0xd5, 0xd6, 0xd7, 0xd8];

#[test]
fn nil_is_sixteen_zero_bytes() {
    assert_eq!(Uuid::nil().into_bytes(), [0u8; 16]);
    assert_eq!(Uuid::nil().as_bytes(), &[0u8; 16]);
}

#[test]
fn max_is_sixteen_ff_bytes() {
    assert_eq!(Uuid::max().into_bytes(), [0xffu8; 16]);
}

#[test]
fn nil_comes_out_of_every_constructor() {
    let nil: Uuid = Uuid::nil();
    assert_eq!(Uuid::from_bytes([0u8; 16]), nil);
    assert_eq!(Uuid::from_bytes_le([0u8; 16]), nil);
    assert_eq!(Uuid::from_slice(&[0u8; 16]), Ok(nil));
    assert_eq!(Uuid::from_slice_le(&[0u8; 16]), Ok(nil));
    assert_eq!(Uuid::from_fields(0, 0, 0, &[0u8; 8]), nil);
    assert_eq!(Uuid::from_fields_le(0, 0, 0, &[0u8; 8]), nil);
    assert_eq!(Uuid::from_u128(0), nil);
    assert_eq!(Uuid::from_u128_le(0), nil);
    assert_eq!(Uuid::from_u64_pair(0, 0), nil);
    assert_eq!(Uuid::from_bytes_ref(&[0u8; 16]).to_uuid(), nil);
    assert_eq!(nil.to_bytes_le(), [0u8; 16]);
}

#[test]
fn max_comes_out_of_every_constructor() {
    let max: Uuid = Uuid::max();
    assert_eq!(Uuid::from_bytes([0xffu8; 16]), max);
    assert_eq!(Uuid::from_bytes_le([0xffu8; 16]), max);
    assert_eq!(Uuid::from_slice(&[0xffu8; 16]), Ok(max));
    assert_eq!(Uuid::from_slice_le(&[0xffu8; 16]), Ok(max));
    assert_eq!(Uuid::from_fields(u32::MAX, u16::MAX, u16::MAX, &[0xffu8; 8]), max);
    assert_eq!(Uuid::from_fields_le(u32::MAX, u16::MAX, u16::MAX, &[0xffu8; 8]), max);
    assert_eq!(Uuid::from_u128(u128::MAX), max);
    assert_eq!(Uuid::from_u128_le(u128::MAX), max);
    assert_eq!(Uuid::from_u64_pair(u64::MAX, u64::MAX), max);
    assert_eq!(Uuid::from_bytes_ref(&[0xffu8; 16]).to_uuid(), max);
    assert_eq!(max.to_bytes_le(), [0xffu8; 16]);
}

#[test]
fn from_fields_lays_each_number_out_most_significant_byte_first() {
    let uuid: Uuid = Uuid::from_fields(0xa1a2a3a4, 0xb1b2, 0xc1c2, &TAIL);
    assert_eq!(uuid.into_bytes(), SAMPLE);
}

#[test]
fn from_fields_le_reverses_the_three_numbers_and_keeps_the_tail() {
    let uuid: Uuid = Uuid::from_fields_le(0xa1a2a3a4, 0xb1b2, 0xc1c2, &TAIL);
    assert_eq!(uuid.into_bytes(), SAMPLE_SWAPPED);
}

#[test]
fn from_fields_equals_from_bytes_of_the_big_endian_fields() {
    let d1: u32 = 0x0102_0304;
    let d2: u16 = 0x0506;
    let d3: u16 = 0x0708;
    let d4: [u8; 8] = [9, 10, 11, 12, 13, 14, 15, 16];
    let mut bytes: Vec<u8> = Vec::new();
    bytes.extend_from_slice(&d1.to_be_bytes());
    bytes.extend_from_slice(&d2.to_be_bytes());
    bytes.extend_from_slice(&d3.to_be_bytes());
    bytes.extend_from_slice(&d4);
    assert_eq!(Ok(Uuid::from_fields(d1, d2, d3, &d4)), Uuid::from_slice(&bytes));
}

#[test]
fn from_u128_lays_the_number_out_most_significant_byte_first() {
    let v: u128 = 0xa1a2a3a4b1b2c1c2d1d2d3d4d5d6d7d8;
    assert_eq!(Uuid::from_u128(v).into_bytes(), SAMPLE);
    assert_eq!(Uuid::from_u128(v).into_bytes(), v.to_be_bytes());
}

#[test]
fn from_u128_le_reverses_all_sixteen_bytes() {
    let v: u128 = 0xa1a2a3a4b1b2c1c2d1d2d3d4d5d6d7d8;
    let expected: [u8; 16] = [
        0xd8, 0xd7, 0xd6, 0xd5, 0xd4, 0xd3, 0xd2, 0xd1, 0xc2, 0xc1, 0xb2, 0xb1, 0xa4, 0xa3, 0xa2,
        0xa1,
    ];
    assert_eq!(Uuid::from_u128_le(v).into_bytes(), expected);
    assert_eq!(Uuid::from_u128_le(v).into_bytes(), v.to_le_bytes());
}

#[test]
fn from_u64_pair_puts_the_high_half_first() {
    let hi: u64 = 0xa1a2a3a4b1b2c1c2;
    let lo: u64 = 0xd1d2d3d4d5d6d7d8;
    assert_eq!(Uuid::from_u64_pair(hi, lo).into_bytes(), SAMPLE);
    assert_eq!(Uuid::from_u64_pair(1, 2), Uuid::from_u128((1u128 << 64) | 2));
}

#[test]
fn from_slice_copies_sixteen_bytes() {
    assert_eq!(Uuid::from_slice(&SAMPLE), Ok(Uuid::from_bytes(SAMPLE)));
}

#[test]
fn from_slice_le_reverses_the_three_fields() {
    assert_eq!(Uuid::from_slice_le(&SAMPLE), Ok(Uuid::from_bytes(SAMPLE_SWAPPED)));
}

#[test]
fn from_slice_refuses_other_lengths_and_reports_the_length() {
    let long: [u8; 17] = [7; 17];
    assert_eq!(Uuid::from_slice(&[]), Err(Error(ErrorKind::ByteLength { len: 0 })));
    assert_eq!(Uuid::from_slice(&long[..15]), Err(Error(ErrorKind::ByteLength { len: 15 })));
    assert_eq!(Uuid::from_slice(&long), Err(Error(ErrorKind::ByteLength { len: 17 })));
    assert!(Uuid::from_slice(&long[..16]).is_ok());
}

#[test]
fn from_slice_le_refuses_other_lengths_and_reports_the_length() {
    let long: [u8; 17] = [7; 17];
    assert_eq!(Uuid::from_slice_le(&[]), Err(Error(ErrorKind::ByteLength { len: 0 })));
    assert_eq!(Uuid::from_slice_le(&long[..15]), Err(Error(ErrorKind::ByteLength { len: 15 })));
    assert_eq!(Uuid::from_slice_le(&long), Err(Error(ErrorKind::ByteLength { len: 17 })));
    assert!(Uuid::from_slice_le(&long[..16]).is_ok());
}

#[test]
fn error_tells_its_kind() {
    let e: Error = Uuid::from_slice(&[1, 2, 3]).unwrap_err();
    assert_eq!(e.kind(), ErrorKind::ByteLength { len: 3 });
}

#[test]
fn from_bytes_keeps_the_bytes() {
    assert_eq!(Uuid::from_bytes(SAMPLE).into_bytes(), SAMPLE);
    assert_eq!(Uuid::from_bytes(SAMPLE).as_bytes(), &SAMPLE);
}

#[test]
fn from_bytes_le_reverses_the_three_fields() {
    assert_eq!(Uuid::from_bytes_le(SAMPLE).into_bytes(), SAMPLE_SWAPPED);
}

#[test]
fn from_bytes_le_is_from_bytes_of_the_swapped_fields() {
    let mut b: [u8; 16] = [0; 16];
    for seed in 0u8..=255 {
        for (i, byte) in b.iter_mut().enumerate() {
            *byte = seed.wrapping_mul(31).wrapping_add((i as u8).wrapping_mul(17));
        }
        let swapped: [u8; 16] = [
            b[3], b[2], b[1], b[0], b[5], b[4], b[7], b[6], b[8], b[9], b[10], b[11], b[12], b[13],
            b[14], b[15],
        ];
        assert_eq!(Uuid::from_bytes_le(b), Uuid::from_bytes(swapped));
    }
}

#[test]
fn bytes_round_trip_in_both_orders() {
    let mut b: [u8; 16] = [0; 16];
    for seed in 0u8..=255 {
        for (i, byte) in b.iter_mut().enumerate() {
            *byte = seed.wrapping_mul(13).wrapping_add((i as u8).wrapping_mul(29));
        }
        assert_eq!(Uuid::from_bytes(b).into_bytes(), b);
        assert_eq!(Uuid::from_bytes_le(b).to_bytes_le(), b);
    }
}

#[test]
fn to_bytes_le_reverses_the_three_fields() {
    assert_eq!(Uuid::from_bytes(SAMPLE).to_bytes_le(), SAMPLE_SWAPPED);
}

#[test]
fn from_bytes_ref_reads_the_bytes_where_they_lie() {
    let bytes: [u8; 16] = SAMPLE;
    let view = Uuid::from_bytes_ref(&bytes);
    assert!(std::ptr::eq(view.as_bytes(), &bytes));
    assert_eq!(view.to_uuid(), Uuid::from_bytes(SAMPLE));
}
