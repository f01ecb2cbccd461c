//! The identifier: sixteen bytes, always held in RFC order.

use crate::error::{Error, ErrorKind};
use crate::layout::{
    be_bytes, fields_be, fields_le, filled, le_bytes, lemma_bytes_u128, lemma_bytes_u16,
    lemma_bytes_u32, lemma_bytes_u64, lemma_swap_fields_involution, lex_less, swap_fields,
};
use crate::marker::{Variant, Version};
use vstd::prelude::*;

verus! {

/// The sixteen bytes of an identifier.
pub type Bytes = [u8; 16];

/// A 128-bit universally unique identifier.
///
/// Whichever constructor made it, the value holds its bytes in RFC order, and
/// nothing changes them afterwards.
#[derive(Clone, Copy, Debug, Eq, Ord, Hash)]
pub struct Uuid(Bytes);

/// Sixteen bytes that lie elsewhere, read as an identifier.
///
/// The view borrows the bytes and copies nothing; it lives no longer than they
/// do. It reads them in RFC order: bytes in the byte-reversed form have to be
/// decoded into a [`Uuid`] of their own.
#[derive(Clone, Copy, Debug)]
pub struct UuidRef<'a>(&'a Bytes);

impl<'a> View for UuidRef<'a> {
    type V = Seq<u8>;

    /// The sixteen bytes, in RFC order.
    open spec fn view(&self) -> Seq<u8> {
        self.bytes()@
    }
}

impl<'a> UuidRef<'a> {
    /// The sixteen bytes that the view reads.
    pub closed spec fn bytes(self) -> Bytes {
        *self.0
    }

    /// The bytes that the view reads, where they lie.
    pub fn as_bytes(&self) -> (r: &'a Bytes)
        ensures
            *r == self.bytes(),
    {
        self.0
    }

    /// An identifier of its own with the bytes that the view reads.
    pub fn to_uuid(&self) -> (r: Uuid)
        ensures
            r.bytes() == self.bytes(),
    {
        Uuid(*self.0)
    }
}

/// How one identifier stands to another in the order of their bytes.
pub(crate) enum Rank {
    Before,
    Same,
    After,
}

impl View for Uuid {
    type V = Seq<u8>;

    /// The sixteen bytes, in RFC order.
    open spec fn view(&self) -> Seq<u8> {
        self.bytes()@
    }
}

/// Sixteen bytes of a slice, as an array.
fn copy_bytes(b: &[u8]) -> (bytes: Bytes)
    requires
        b@.len() == 16,
    ensures
        bytes@ == b@,
{
    let mut bytes: Bytes = [0;16];
    let mut i: usize = 0;
    while i < 16
        invariant
            i <= 16,
            b@.len() == 16,
            forall|j: int| 0 <= j < i ==> bytes@[j] == b@[j],
        decreases 16 - i,
    {
        bytes[i] = b[i];
        i += 1;
    }
    assert(bytes@ =~= b@);
    bytes
}

impl Uuid {
    /// The sixteen bytes, in RFC order, as an array.
    pub closed spec fn bytes(self) -> Bytes {
        self.0
    }

    /// An identifier is its sixteen bytes and nothing more: two with the same
    /// bytes are the same identifier.
    pub proof fn lemma_same_bytes(self, other: Uuid)
        requires
            self@ == other@,
        ensures
            self == other,
    {
        assert(self.0 =~= other.0);
    }

    /// Decoding sixteen bytes and encoding the result in the same byte order
    /// gives the sixteen bytes back.
    ///
    /// `decoded` stands for what [`Uuid::from_bytes`] makes of `b` and `encoded`
    /// for what [`Uuid::into_bytes`] makes of that; `decoded_le` and
    /// `encoded_le` stand for the same with [`Uuid::from_bytes_le`] and
    /// [`Uuid::to_bytes_le`].
    pub proof fn lemma_round_trip(
        b: Bytes,
        decoded: Uuid,
        encoded: Bytes,
        decoded_le: Uuid,
        encoded_le: Bytes,
    )
        requires
            decoded.bytes() == b,
            encoded == decoded.bytes(),
            decoded_le@ == swap_fields(b@),
            encoded_le@ == swap_fields(decoded_le@),
        ensures
            encoded == b,
            encoded_le == b,
    {
        lemma_swap_fields_involution(b@);
        assert(encoded_le =~= b);
    }

    /// Decoding sixteen bytes in the byte-reversed form is decoding, in RFC
    /// order, the bytes with their three numeric fields reversed.
    ///
    /// `decoded_le` stands for what [`Uuid::from_bytes_le`] makes of `b`, and
    /// `decoded` for what [`Uuid::from_bytes`] makes of `swapped`.
    pub proof fn lemma_endian_duality(b: Bytes, swapped: Bytes, decoded_le: Uuid, decoded: Uuid)
        requires
            swapped@ == swap_fields(b@),
            decoded_le@ == swap_fields(b@),
            decoded.bytes() == swapped,
        ensures
            decoded_le == decoded,
    {
        decoded_le.lemma_same_bytes(decoded);
    }

    /// Building an identifier from four fields is decoding, in RFC order, the
    /// big-endian bytes of the three numbers followed by the tail.
    ///
    /// `composed` stands for what [`Uuid::from_fields`] makes of the fields, and
    /// `decoded` for what [`Uuid::from_bytes`] makes of `bytes`.
    pub proof fn lemma_field_composition(
        d1: u32,
        d2: u16,
        d3: u16,
        d4: [u8; 8],
        bytes: Bytes,
        composed: Uuid,
        decoded: Uuid,
    )
        requires
            bytes@ == be_bytes(d1 as nat, 4) + be_bytes(d2 as nat, 2) + be_bytes(d3 as nat, 2)
                + d4@,
            composed@ == fields_be(d1, d2, d3, d4@),
            decoded.bytes() == bytes,
        ensures
            composed == decoded,
    {
        composed.lemma_same_bytes(decoded);
    }

    /// Compares two identifiers byte by byte from the first.
    pub(crate) fn rank(&self, other: &Uuid) -> (r: Rank)
        ensures
            r is Same <==> self@ == other@,
            r is Before <==> lex_less(self@, other@),
    {
        let mut i: usize = 0;
        while i < 16
            invariant
                i <= 16,
                forall|j: int| 0 <= j < i ==> self@[j] == other@[j],
            decreases 16 - i,
        {
            let x = self.0[i];
            let y = other.0[i];
            if x != y {
                proof {
                    let k = i as int;
                    assert(self@.subrange(0, k) =~= other@.subrange(0, k));
                    assert forall|n: int|
                        0 <= n < 16 && self@.subrange(0, n) == other@.subrange(0, n)
                            && self@[n] < other@[n] implies n == k by {
                        if n < k {
                            assert(self@[n] == other@[n]);
                        } else if n > k {
                            assert(self@.subrange(0, n)[k] == other@.subrange(0, n)[k]);
                        }
                    }
                }
                return if x < y {
                    Rank::Before
                } else {
                    Rank::After
                };
            }
            i += 1;
        }
        assert(self@ =~= other@);
        Rank::Same
    }

    /// The nil identifier: every byte zero.
    pub fn nil() -> (r: Uuid)
        ensures
            r@ == filled(0),
    {
        let r = Uuid::from_bytes([0;16]);
        assert(r@ =~= filled(0));
        r
    }

    /// The max identifier: every byte `0xFF`.
    pub fn max() -> (r: Uuid)
        ensures
            r@ == filled(0xFF),
    {
        let r = Uuid::from_bytes([0xFF;16]);
        assert(r@ =~= filled(0xFF));
        r
    }

    /// The identifier made of four fields in RFC order: `d1` in bytes 0 to 3,
    /// `d2` in bytes 4 to 5, `d3` in bytes 6 to 7, each most significant byte
    /// first, and `d4` in bytes 8 to 15.
    pub fn from_fields(d1: u32, d2: u16, d3: u16, d4: &[u8; 8]) -> (r: Uuid)
        ensures
            r@ == fields_be(d1, d2, d3, d4@),
    {
        proof {
            lemma_bytes_u32(d1);
            lemma_bytes_u16(d2);
            lemma_bytes_u16(d3);
        }
        let r = Uuid::from_bytes(
            [
                (d1 >> 24) as u8,
                (d1 >> 16) as u8,
                (d1 >> 8) as u8,
                d1 as u8,
                (d2 >> 8) as u8,
                d2 as u8,
                (d3 >> 8) as u8,
                d3 as u8,
                d4[0],
                d4[1],
                d4[2],
                d4[3],
                d4[4],
                d4[5],
                d4[6],
                d4[7],
            ],
        );
        assert(r@ =~= fields_be(d1, d2, d3, d4@));
        r
    }

    /// The identifier made of four fields whose numbers are given byte-reversed:
    /// the same places as in [`Uuid::from_fields`], but `d1`, `d2` and `d3` each
    /// least significant byte first; `d4` is copied as it is.
    pub fn from_fields_le(d1: u32, d2: u16, d3: u16, d4: &[u8; 8]) -> (r: Uuid)
        ensures
            r@ == fields_le(d1, d2, d3, d4@),
    {
        proof {
            lemma_bytes_u32(d1);
            lemma_bytes_u16(d2);
            lemma_bytes_u16(d3);
        }
        let r = Uuid::from_bytes(
            [
                d1 as u8,
                (d1 >> 8) as u8,
                (d1 >> 16) as u8,
                (d1 >> 24) as u8,
                d2 as u8,
                (d2 >> 8) as u8,
                d3 as u8,
                (d3 >> 8) as u8,
                d4[0],
                d4[1],
                d4[2],
                d4[3],
                d4[4],
                d4[5],
                d4[6],
                d4[7],
            ],
        );
        assert(r@ =~= fields_le(d1, d2, d3, d4@));
        r
    }

    /// The identifier whose sixteen bytes are those of `v`, most significant first.
    pub fn from_u128(v: u128) -> (r: Uuid)
        ensures
            r@ == be_bytes(v as nat, 16),
    {
        proof {
            lemma_bytes_u128(v);
        }
        let r = Uuid::from_bytes(
            [
                (v >> 120) as u8,
                (v >> 112) as u8,
                (v >> 104) as u8,
                (v >> 96) as u8,
                (v >> 88) as u8,
                (v >> 80) as u8,
                (v >> 72) as u8,
                (v >> 64) as u8,
                (v >> 56) as u8,
                (v >> 48) as u8,
                (v >> 40) as u8,
                (v >> 32) as u8,
                (v >> 24) as u8,
                (v >> 16) as u8,
                (v >> 8) as u8,
                v as u8,
            ],
        );
        assert(r@ =~= be_bytes(v as nat, 16));
        r
    }

    /// The identifier whose sixteen bytes are those of `v`, least significant first.
    pub fn from_u128_le(v: u128) -> (r: Uuid)
        ensures
            r@ == le_bytes(v as nat, 16),
    {
        proof {
            lemma_bytes_u128(v);
        }
        let r = Uuid::from_bytes(
            [
                v as u8,
                (v >> 8) as u8,
                (v >> 16) as u8,
                (v >> 24) as u8,
                (v >> 32) as u8,
                (v >> 40) as u8,
                (v >> 48) as u8,
                (v >> 56) as u8,
                (v >> 64) as u8,
                (v >> 72) as u8,
                (v >> 80) as u8,
                (v >> 88) as u8,
                (v >> 96) as u8,
                (v >> 104) as u8,
                (v >> 112) as u8,
                (v >> 120) as u8,
            ],
        );
        assert(r@ =~= le_bytes(v as nat, 16));
        r
    }

    /// The identifier with `high_bits` in bytes 0 to 7 and `low_bits` in bytes 8
    /// to 15, each most significant byte first.
    pub fn from_u64_pair(high_bits: u64, low_bits: u64) -> (r: Uuid)
        ensures
            r@ == be_bytes(high_bits as nat, 8) + be_bytes(low_bits as nat, 8),
    {
        proof {
            lemma_bytes_u64(high_bits);
            lemma_bytes_u64(low_bits);
        }
        let r = Uuid::from_bytes(
            [
                (high_bits >> 56) as u8,
                (high_bits >> 48) as u8,
                (high_bits >> 40) as u8,
                (high_bits >> 32) as u8,
                (high_bits >> 24) as u8,
                (high_bits >> 16) as u8,
                (high_bits >> 8) as u8,
                high_bits as u8,
                (low_bits >> 56) as u8,
                (low_bits >> 48) as u8,
                (low_bits >> 40) as u8,
                (low_bits >> 32) as u8,
                (low_bits >> 24) as u8,
                (low_bits >> 16) as u8,
                (low_bits >> 8) as u8,
                low_bits as u8,
            ],
        );
        assert(r@ =~= be_bytes(high_bits as nat, 8) + be_bytes(low_bits as nat, 8));
        r
    }

    /// The identifier with the bytes of `b`, which must be sixteen.
    ///
    /// A slice of any other length is refused, and the error says how many
    /// bytes it held.
    pub fn from_slice(b: &[u8]) -> (r: Result<Uuid, Error>)
        ensures
            match r {
                Ok(uuid) => b@.len() == 16 && uuid@ == b@,
                Err(e) => b@.len() != 16 && e == Error::byte_length(b@.len() as usize),
            },
    {
        if b.len() != 16 {
            return Err(Error(ErrorKind::ByteLength { len: b.len() }));
        }
        Ok(Uuid::from_bytes(copy_bytes(b)))
    }

    /// The identifier that `b`, which must hold sixteen bytes, spells with its
    /// three numeric fields byte-reversed.
    ///
    /// A slice of any other length is refused, and the error says how many
    /// bytes it held.
    pub fn from_slice_le(b: &[u8]) -> (r: Result<Uuid, Error>)
        ensures
            match r {
                Ok(uuid) => b@.len() == 16 && uuid@ == swap_fields(b@),
                Err(e) => b@.len() != 16 && e == Error::byte_length(b@.len() as usize),
            },
    {
        if b.len() != 16 {
            return Err(Error(ErrorKind::ByteLength { len: b.len() }));
        }
        Ok(Uuid::from_bytes_le(copy_bytes(b)))
    }

    /// The identifier with exactly these bytes.
    pub fn from_bytes(bytes: Bytes) -> (r: Uuid)
        ensures
            r.bytes() == bytes,
    {
        Uuid(bytes)
    }

    /// A view of the bytes where they lie, as an identifier in RFC order.
    pub fn from_bytes_ref(bytes: &Bytes) -> (r: UuidRef<'_>)
        ensures
            r.bytes() == *bytes,
    {
        UuidRef(bytes)
    }

    /// The identifier that `b` spells with its three numeric fields
    /// byte-reversed: bytes 0 to 3, 4 to 5 and 6 to 7 of `b` are each reversed,
    /// bytes 8 to 15 are kept.
    pub fn from_bytes_le(b: Bytes) -> (r: Uuid)
        ensures
            r@ == swap_fields(b@),
            swap_fields(r@) == b@,
    {
        proof {
            lemma_swap_fields_involution(b@);
        }
        let r = Uuid(
            [
                b[3],
                b[2],
                b[1],
                b[0],
                b[5],
                b[4],
                b[7],
                b[6],
                b[8],
                b[9],
                b[10],
                b[11],
                b[12],
                b[13],
                b[14],
                b[15],
            ],
        );
        assert(r@ =~= swap_fields(b@));
        r
    }

    /// The bytes of the identifier, in RFC order.
    pub fn as_bytes(&self) -> (r: &Bytes)
        ensures
            *r == self.bytes(),
    {
        &self.0
    }

    /// The bytes of the identifier, in RFC order.
    pub fn into_bytes(self) -> (r: Bytes)
        ensures
            r == self.bytes(),
    {
        self.0
    }

    /// The bytes of the identifier with its three numeric fields byte-reversed:
    /// what [`Uuid::from_bytes_le`] reads back as this identifier.
    pub fn to_bytes_le(&self) -> (r: Bytes)
        ensures
            r@ == swap_fields(self@),
    {
        let b = &self.0;
        let r = [
            b[3],
            b[2],
            b[1],
            b[0],
            b[5],
            b[4],
            b[7],
            b[6],
            b[8],
            b[9],
            b[10],
            b[11],
            b[12],
            b[13],
            b[14],
            b[15],
        ];
        assert(r@ =~= swap_fields(self@));
        r
    }

    /// The number in the high nibble of byte 6, from 0 to 15.
    pub fn get_version_num(&self) -> (n: usize)
        ensures
            n == self@[6] / 16,
    {
        let byte = self.0[6];
        assert(byte >> 4 == byte / 16) by (bit_vector);
        (byte >> 4) as usize
    }

    /// The version that the high nibble of byte 6 spells, if that number has a
    /// meaning.
    pub fn get_version(&self) -> (v: Option<Version>)
        ensures
            v == Version::of_number((self@[6] / 16) as nat),
    {
        match self.get_version_num() {
            1 => Some(Version::Mac),
            2 => Some(Version::Dce),
            3 => Some(Version::Md5),
            4 => Some(Version::Random),
            5 => Some(Version::Sha1),
            6 => Some(Version::SortMac),
            7 => Some(Version::SortRand),
            8 => Some(Version::Custom),
            _ => None,
        }
    }

    /// The variant that the leading bits of byte 8 spell.
    pub fn get_variant(&self) -> (v: Variant)
        ensures
            v == Variant::of_byte(self@[8]),
    {
        let byte = self.0[8];
        assert(byte & 0x80 == 0 <==> byte / 0x80 == 0) by (bit_vector);
        assert(byte & 0xc0 == 0x80 <==> byte / 0x40 == 2) by (bit_vector);
        assert(byte & 0xe0 == 0xc0 <==> byte / 0x20 == 6) by (bit_vector);
        if byte & 0x80 == 0x00 {
            Variant::NCS
        } else if byte & 0xc0 == 0x80 {
            Variant::RFC4122
        } else if byte & 0xe0 == 0xc0 {
            Variant::Microsoft
        } else {
            Variant::Future
        }
    }
}

} // verus!
