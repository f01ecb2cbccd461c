//! The builder: one identifier in the making.
//!
//! A [`Uuid`] cannot be changed once it exists, so whatever writes single
//! fields lives here. A builder is made by any of the ways in which an
//! identifier is made, takes a version and a variant marker, and is given up
//! for the finished identifier.

use crate::error::Error;
use crate::layout::{
    be_bytes, fields_be, fields_le, filled, le_bytes, lemma_bytes_len, swap_fields,
};
use crate::marker::{Variant, Version};
use crate::value::{Bytes, Uuid};
use core::time::Duration;
use vstd::prelude::*;

verus! {

/// `b` with the version `v` written into the high nibble of byte 6.
pub open spec fn stamp_version(b: Seq<u8>, v: Version) -> Seq<u8> {
    b.update(6, v.stamp(b[6]))
}

/// `b` with the variant `v` written into the leading bits of byte 8.
pub open spec fn stamp_variant(b: Seq<u8>, v: Variant) -> Seq<u8> {
    b.update(8, v.stamp(b[8]))
}

/// Writing a version changes the high nibble of byte 6 to the version number
/// and nothing else: the low nibble of byte 6 and the fifteen other bytes stay.
pub proof fn lemma_stamp_version_isolated(b: Seq<u8>, v: Version)
    requires
        b.len() == 16,
    ensures
        stamp_version(b, v).len() == 16,
        forall|i: int| 0 <= i < 16 && i != 6 ==> stamp_version(b, v)[i] == b[i],
        stamp_version(b, v)[6] % 16 == b[6] % 16,
        stamp_version(b, v)[6] / 16 == v.spec_number(),
{
    v.lemma_stamp(b[6]);
}

/// Writing a variant changes the leading bits of byte 8 to the marker and
/// nothing else: the bits of byte 8 below the marker and the fifteen other
/// bytes stay.
pub proof fn lemma_stamp_variant_isolated(b: Seq<u8>, v: Variant)
    requires
        b.len() == 16,
    ensures
        stamp_variant(b, v).len() == 16,
        forall|i: int| 0 <= i < 16 && i != 8 ==> stamp_variant(b, v)[i] == b[i],
        stamp_variant(b, v)[8] as nat % v.unit() == b[8] as nat % v.unit(),
        stamp_variant(b, v)[8] as nat / v.unit() == v.prefix(),
{
    v.lemma_stamp(b[8]);
}

/// Of two versions written one after the other, the last one wins: the result
/// is what writing the last alone gives.
pub proof fn lemma_version_last_write_wins(b: Seq<u8>, first: Version, last: Version)
    requires
        b.len() == 16,
    ensures
        stamp_version(stamp_version(b, first), last) == stamp_version(b, last),
        Version::of_number((stamp_version(stamp_version(b, first), last)[6] / 16) as nat) == Some(
            last,
        ),
{
    first.lemma_stamp(b[6]);
    last.lemma_stamp(b[6]);
    assert(stamp_version(stamp_version(b, first), last) =~= stamp_version(b, last));
}

/// Of two variants written one after the other, the last one wins: the result
/// reads as the last, and every byte but byte 8 is as it was. Where the last
/// marker is at least as wide as the first, the result is what writing the
/// last alone gives; a narrower marker leaves standing the bits that the wider
/// one wrote below it.
pub proof fn lemma_variant_last_write_wins(b: Seq<u8>, first: Variant, last: Variant)
    requires
        b.len() == 16,
    ensures
        Variant::of_byte(stamp_variant(stamp_variant(b, first), last)[8]) == last,
        forall|i: int|
            0 <= i < 16 && i != 8 ==> stamp_variant(stamp_variant(b, first), last)[i] == b[i],
        last.unit() <= first.unit() ==> stamp_variant(stamp_variant(b, first), last)
            == stamp_variant(b, last),
{
    first.lemma_stamp(b[8]);
    last.lemma_stamp(first.stamp(b[8]));
    if last.unit() <= first.unit() {
        let x = b[8];
        assert({
            &&& (x % 0x80) % 0x80 == x % 0x80
            &&& (x % 0x80) % 0x40 == x % 0x40
            &&& (x % 0x80) % 0x20 == x % 0x20
            &&& (0x80 + x % 0x40) % 0x40 == x % 0x40
            &&& (0x80 + x % 0x40) % 0x20 == x % 0x20
            &&& (0xc0 + x % 0x20) % 0x20 == x % 0x20
            &&& (0xe0 + x % 0x20) % 0x20 == x % 0x20
        }) by (bit_vector);
        assert(last.stamp(first.stamp(x)) == last.stamp(x));
        assert(stamp_variant(stamp_variant(b, first), last) =~= stamp_variant(b, last));
    }
}

/// The two markers lie in different bytes, so the order in which they are
/// written does not matter.
pub proof fn lemma_stamps_commute(b: Seq<u8>, version: Version, variant: Variant)
    requires
        b.len() == 16,
    ensures
        stamp_version(stamp_variant(b, variant), version) == stamp_variant(
            stamp_version(b, version),
            variant,
        ),
{
    assert(stamp_version(stamp_variant(b, variant), version) =~= stamp_variant(
        stamp_version(b, version),
        variant,
    ));
}

/// Bytes 8 to 15 of a time-based identifier: the RFC 4122 variant over the
/// six high bits of the 14-bit clock sequence, its eight low bits, and the
/// node id.
pub open spec fn clock_seq_and_node(counter: u16, node_id: Seq<u8>) -> Seq<u8> {
    seq![(0x80 + (counter / 0x100) % 0x40) as u8, (counter % 0x100) as u8] + node_id
}

/// The bytes of a version 1 identifier: of the 60-bit count of ticks, the low
/// 32 bits, then the next 16, then version 1 over the top 12; then the clock
/// sequence and the node.
pub open spec fn rfc4122_timestamp_layout(ticks: u64, counter: u16, node_id: Seq<u8>) -> Seq<u8> {
    fields_be(
        (ticks % 0x1_0000_0000) as u32,
        ((ticks / 0x1_0000_0000) % 0x1_0000) as u16,
        (0x1000 + (ticks / 0x1_0000_0000_0000) % 0x1000) as u16,
        clock_seq_and_node(counter, node_id),
    )
}

/// The bytes of a version 6 identifier: of the 60-bit count of ticks, the top
/// 32 bits, then the next 16, then version 6 over the low 12; then the clock
/// sequence and the node.
pub open spec fn sorted_rfc4122_timestamp_layout(
    ticks: u64,
    counter: u16,
    node_id: Seq<u8>,
) -> Seq<u8> {
    fields_be(
        ((ticks / 0x1000_0000) % 0x1_0000_0000) as u32,
        ((ticks / 0x1000) % 0x1_0000) as u16,
        (0x6000 + ticks % 0x1000) as u16,
        clock_seq_and_node(counter, node_id),
    )
}

/// The bytes of a version 7 identifier: the low 48 bits of the count of
/// milliseconds; then version 7 over the low nibble of `random[1]`, and
/// `random[0]`; then the RFC 4122 variant over the six low bits of `random[2]`;
/// then `random[3]` to `random[9]`.
pub open spec fn unix_millis_layout(millis: u64, random: Seq<u8>) -> Seq<u8> {
    fields_be(
        ((millis / 0x1_0000) % 0x1_0000_0000) as u32,
        (millis % 0x1_0000) as u16,
        (0x7000 + (random[1] % 0x10) * 0x100 + random[0]) as u16,
        seq![(0x80 + random[2] % 0x40) as u8] + random.subrange(3, 10),
    )
}

/// Where the two markers of a layout of four fields lie: byte 6 is the high
/// byte of the third field, byte 8 the first byte of the tail.
proof fn lemma_fields_be_markers(d1: u32, d2: u16, d3: u16, d4: Seq<u8>)
    requires
        d4.len() == 8,
    ensures
        fields_be(d1, d2, d3, d4).len() == 16,
        fields_be(d1, d2, d3, d4)[6] == d3 / 256,
        fields_be(d1, d2, d3, d4)[8] == d4[0],
{
    reveal_with_fuel(be_bytes, 3);
    lemma_bytes_len(d1 as nat, 4);
    lemma_bytes_len(d2 as nat, 2);
    lemma_bytes_len(d3 as nat, 2);
}

/// The layout of a version 1 identifier reads as version 1 of the RFC 4122
/// variant.
pub proof fn lemma_rfc4122_timestamp_markers(ticks: u64, counter: u16, node_id: Seq<u8>)
    requires
        node_id.len() == 6,
    ensures
        rfc4122_timestamp_layout(ticks, counter, node_id).len() == 16,
        Version::of_number((rfc4122_timestamp_layout(ticks, counter, node_id)[6] / 16) as nat)
            == Some(Version::Mac),
        Variant::of_byte(rfc4122_timestamp_layout(ticks, counter, node_id)[8])
            == Variant::RFC4122,
{
    lemma_fields_be_markers(
        (ticks % 0x1_0000_0000) as u32,
        ((ticks / 0x1_0000_0000) % 0x1_0000) as u16,
        (0x1000 + (ticks / 0x1_0000_0000_0000) % 0x1000) as u16,
        clock_seq_and_node(counter, node_id),
    );
}

/// The layout of a version 6 identifier reads as version 6 of the RFC 4122
/// variant.
pub proof fn lemma_sorted_rfc4122_timestamp_markers(ticks: u64, counter: u16, node_id: Seq<u8>)
    requires
        node_id.len() == 6,
    ensures
        sorted_rfc4122_timestamp_layout(ticks, counter, node_id).len() == 16,
        Version::of_number(
            (sorted_rfc4122_timestamp_layout(ticks, counter, node_id)[6] / 16) as nat,
        ) == Some(Version::SortMac),
        Variant::of_byte(sorted_rfc4122_timestamp_layout(ticks, counter, node_id)[8])
            == Variant::RFC4122,
{
    lemma_fields_be_markers(
        ((ticks / 0x1000_0000) % 0x1_0000_0000) as u32,
        ((ticks / 0x1000) % 0x1_0000) as u16,
        (0x6000 + ticks % 0x1000) as u16,
        clock_seq_and_node(counter, node_id),
    );
}

/// The layout of a version 7 identifier reads as version 7 of the RFC 4122
/// variant, whatever the random bytes are.
pub proof fn lemma_unix_millis_markers(millis: u64, random: Seq<u8>)
    requires
        random.len() == 11,
    ensures
        unix_millis_layout(millis, random).len() == 16,
        Version::of_number((unix_millis_layout(millis, random)[6] / 16) as nat) == Some(
            Version::SortRand,
        ),
        Variant::of_byte(unix_millis_layout(millis, random)[8]) == Variant::RFC4122,
{
    lemma_fields_be_markers(
        ((millis / 0x1_0000) % 0x1_0000_0000) as u32,
        (millis % 0x1_0000) as u16,
        (0x7000 + (random[1] % 0x10) * 0x100 + random[0]) as u16,
        seq![(0x80 + random[2] % 0x40) as u8] + random.subrange(3, 10),
    );
}

/// The whole milliseconds that a duration holds, as `Duration::as_millis`
/// counts them.
pub uninterp spec fn duration_millis(d: Duration) -> u128;

/// `Duration::as_millis`: the number of whole milliseconds in `d`. The number
/// depends on the duration alone; nothing more is claimed of it.
#[verifier::external_body]
fn whole_millis(d: &Duration) -> (ms: u128)
    ensures
        ms == duration_millis(*d),
{
    d.as_millis()
}

/// An identifier in the making.
#[derive(Debug)]
pub struct Builder(Uuid);

impl View for Builder {
    type V = Seq<u8>;

    /// The sixteen bytes as they stand, in RFC order.
    open spec fn view(&self) -> Seq<u8> {
        self.uuid()@
    }
}

impl Builder {
    /// The identifier as it stands.
    pub closed spec fn uuid(self) -> Uuid {
        self.0
    }

    /// A builder that starts from exactly these bytes.
    pub fn from_bytes(b: Bytes) -> (r: Builder)
        ensures
            r@ == b@,
    {
        Builder(Uuid::from_bytes(b))
    }

    /// A builder that starts from what `b` spells with its three numeric
    /// fields byte-reversed.
    pub fn from_bytes_le(b: Bytes) -> (r: Builder)
        ensures
            r@ == swap_fields(b@),
    {
        Builder(Uuid::from_bytes_le(b))
    }

    /// A builder for a version 1 identifier, from a count of 100-nanosecond
    /// ticks since the RFC epoch, a clock sequence and a node id.
    ///
    /// Of `ticks` the low 60 bits count, of `counter` the low 14.
    pub fn from_rfc4122_timestamp(ticks: u64, counter: u16, node_id: &[u8; 6]) -> (r: Builder)
        ensures
            r@ == rfc4122_timestamp_layout(ticks, counter, node_id@),
    {
        let time_low = (ticks & 0xFFFF_FFFF) as u32;
        let time_mid = ((ticks >> 32) & 0xFFFF) as u16;
        let time_high_and_version = (((ticks >> 48) & 0x0FFF) as u16) | (1 << 12);

        let mut d4 = [0;8];

        d4[0] = (((counter & 0x3F00) >> 8) as u8) | 0x80;
        d4[1] = (counter & 0xFF) as u8;
        d4[2] = node_id[0];
        d4[3] = node_id[1];
        d4[4] = node_id[2];
        d4[5] = node_id[3];
        d4[6] = node_id[4];
        d4[7] = node_id[5];

        proof {
            assert({
                &&& (ticks & 0xFFFF_FFFF) as u32 == ticks % 0x1_0000_0000
                &&& ((ticks >> 32) & 0xFFFF) as u16 == (ticks / 0x1_0000_0000) % 0x1_0000
                &&& (((ticks >> 48) & 0x0FFF) as u16) | (1u16 << 12) == 0x1000 + (ticks
                    / 0x1_0000_0000_0000) % 0x1000
            }) by (bit_vector);
            assert({
                &&& (((counter & 0x3F00) >> 8) as u8) | 0x80 == 0x80 + (counter / 0x100) % 0x40
                &&& (counter & 0xFF) as u8 == counter % 0x100
            }) by (bit_vector);
            assert(d4@ =~= clock_seq_and_node(counter, node_id@));
        }
        Self::from_fields(time_low, time_mid, time_high_and_version, &d4)
    }

    /// A builder for a version 6 identifier, from a count of 100-nanosecond
    /// ticks since the RFC epoch, a clock sequence and a node id.
    ///
    /// The count is laid out from its high bits down, so that identifiers sort
    /// by time. Of `ticks` the low 60 bits count, of `counter` the low 14.
    pub fn from_sorted_rfc4122_timestamp(
        ticks: u64,
        counter: u16,
        node_id: &[u8; 6],
    ) -> (r: Builder)
        ensures
            r@ == sorted_rfc4122_timestamp_layout(ticks, counter, node_id@),
    {
        let time_high = ((ticks >> 28) & 0xFFFF_FFFF) as u32;
        let time_mid = ((ticks >> 12) & 0xFFFF) as u16;
        let time_low_and_version = ((ticks & 0x0FFF) as u16) | (0x6 << 12);

        let mut d4 = [0;8];

        d4[0] = (((counter & 0x3F00) >> 8) as u8) | 0x80;
        d4[1] = (counter & 0xFF) as u8;
        d4[2] = node_id[0];
        d4[3] = node_id[1];
        d4[4] = node_id[2];
        d4[5] = node_id[3];
        d4[6] = node_id[4];
        d4[7] = node_id[5];

        proof {
            assert({
                &&& ((ticks >> 28) & 0xFFFF_FFFF) as u32 == (ticks / 0x1000_0000) % 0x1_0000_0000
                &&& ((ticks >> 12) & 0xFFFF) as u16 == (ticks / 0x1000) % 0x1_0000
                &&& ((ticks & 0x0FFF) as u16) | (0x6u16 << 12) == 0x6000 + ticks % 0x1000
            }) by (bit_vector);
            assert({
                &&& (((counter & 0x3F00) >> 8) as u8) | 0x80 == 0x80 + (counter / 0x100) % 0x40
                &&& (counter & 0xFF) as u8 == counter % 0x100
            }) by (bit_vector);
            assert(d4@ =~= clock_seq_and_node(counter, node_id@));
        }
        Self::from_fields(time_high, time_mid, time_low_and_version, &d4)
    }

    /// A builder for a version 7 identifier, from the time since the Unix
    /// epoch and random bytes.
    ///
    /// The time counts in whole milliseconds, of which the low 48 bits are
    /// used; see [`Builder::from_unix_timestamp_millis`] for the layout.
    pub fn from_timestamp_millis(
        since_unix_epoch: Duration,
        random_bytes: &[u8; 11],
    ) -> (r: Builder)
        ensures
            r@ == unix_millis_layout(
                (duration_millis(since_unix_epoch) % 0x1_0000_0000_0000_0000) as u64,
                random_bytes@,
            ),
    {
        let whole = whole_millis(&since_unix_epoch);
        assert(whole as u64 == whole % 0x1_0000_0000_0000_0000) by (bit_vector);
        Self::from_unix_timestamp_millis(whole as u64, random_bytes)
    }

    /// A builder for a version 7 identifier, from the milliseconds since the
    /// Unix epoch and random bytes.
    ///
    /// Of `millis` the low 48 bits are used, and of `random_bytes` the first
    /// ten: the version takes the place of the high nibble of the second, the
    /// variant that of the two high bits of the third.
    pub fn from_unix_timestamp_millis(millis: u64, random_bytes: &[u8; 11]) -> (r: Builder)
        ensures
            r@ == unix_millis_layout(millis, random_bytes@),
    {
        let ms_high = ((millis >> 16) & 0xFFFF_FFFF) as u32;
        let ms_low = (millis & 0xFFFF) as u16;

        let r0 = random_bytes[0];
        let r1 = random_bytes[1];
        let r2 = random_bytes[2];
        let rng_ver = r0 as u16 | (((r1 & 0x0F) as u16) << 8) | (0x7 << 12);

        let mut rng_rest = [0;8];
        rng_rest[0] = (r2 & 0x3F) | 0x80;
        rng_rest[1] = random_bytes[3];
        rng_rest[2] = random_bytes[4];
        rng_rest[3] = random_bytes[5];
        rng_rest[4] = random_bytes[6];
        rng_rest[5] = random_bytes[7];
        rng_rest[6] = random_bytes[8];
        rng_rest[7] = random_bytes[9];

        proof {
            assert({
                &&& ((millis >> 16) & 0xFFFF_FFFF) as u32 == (millis / 0x1_0000) % 0x1_0000_0000
                &&& (millis & 0xFFFF) as u16 == millis % 0x1_0000
            }) by (bit_vector);
            assert(r0 as u16 | (((r1 & 0x0F) as u16) << 8) | (0x7u16 << 12) == 0x7000 + (r1
                % 0x10) * 0x100 + r0) by (bit_vector);
            assert((r2 & 0x3F) | 0x80 == 0x80 + r2 % 0x40) by (bit_vector);
            assert(rng_rest@ =~= seq![(0x80 + r2 % 0x40) as u8] + random_bytes@.subrange(3, 10));
        }
        Self::from_fields(ms_high, ms_low, rng_ver, &rng_rest)
    }

    /// A builder for a version 8 identifier: these bytes, with that version
    /// and the RFC 4122 variant written over them.
    pub fn from_custom_bytes(b: Bytes) -> (r: Builder)
        ensures
            r@ == stamp_version(stamp_variant(b@, Variant::RFC4122), Version::Custom),
    {
        Builder::from_bytes(b).with_variant(Variant::RFC4122).with_version(Version::Custom)
    }

    /// A builder for a version 4 identifier: these bytes, which the caller has
    /// drawn at random, with that version and the RFC 4122 variant written
    /// over them.
    pub fn from_random_bytes(b: Bytes) -> (r: Builder)
        ensures
            r@ == stamp_version(stamp_variant(b@, Variant::RFC4122), Version::Random),
    {
        Builder(Uuid::from_bytes(b)).with_variant(Variant::RFC4122).with_version(Version::Random)
    }

    /// A builder for a version 3 identifier: these bytes, which the caller has
    /// from an MD5 hash, with that version and the RFC 4122 variant written
    /// over them.
    pub fn from_md5_bytes(b: Bytes) -> (r: Builder)
        ensures
            r@ == stamp_version(stamp_variant(b@, Variant::RFC4122), Version::Md5),
    {
        Builder(Uuid::from_bytes(b)).with_variant(Variant::RFC4122).with_version(Version::Md5)
    }

    /// A builder for a version 5 identifier: these bytes, which the caller has
    /// from a SHA-1 hash, with that version and the RFC 4122 variant written
    /// over them.
    pub fn from_sha1_bytes(b: Bytes) -> (r: Builder)
        ensures
            r@ == stamp_version(stamp_variant(b@, Variant::RFC4122), Version::Sha1),
    {
        Builder(Uuid::from_bytes(b)).with_variant(Variant::RFC4122).with_version(Version::Sha1)
    }

    /// A builder that starts from the bytes of `b`, which must be sixteen.
    ///
    /// A slice of any other length is refused, and the error says how many
    /// bytes it held.
    pub fn from_slice(b: &[u8]) -> (r: Result<Builder, Error>)
        ensures
            match r {
                Ok(builder) => b@.len() == 16 && builder@ == b@,
                Err(e) => b@.len() != 16 && e == Error::byte_length(b@.len() as usize),
            },
    {
        match Uuid::from_slice(b) {
            Ok(uuid) => Ok(Builder(uuid)),
            Err(e) => Err(e),
        }
    }

    /// A builder that starts from what `b`, which must hold sixteen bytes,
    /// spells with its three numeric fields byte-reversed.
    ///
    /// A slice of any other length is refused, and the error says how many
    /// bytes it held.
    pub fn from_slice_le(b: &[u8]) -> (r: Result<Builder, Error>)
        ensures
            match r {
                Ok(builder) => b@.len() == 16 && builder@ == swap_fields(b@),
                Err(e) => b@.len() != 16 && e == Error::byte_length(b@.len() as usize),
            },
    {
        match Uuid::from_slice_le(b) {
            Ok(uuid) => Ok(Builder(uuid)),
            Err(e) => Err(e),
        }
    }

    /// A builder that starts from four fields in RFC order.
    pub fn from_fields(d1: u32, d2: u16, d3: u16, d4: &[u8; 8]) -> (r: Builder)
        ensures
            r@ == fields_be(d1, d2, d3, d4@),
    {
        Builder(Uuid::from_fields(d1, d2, d3, d4))
    }

    /// A builder that starts from four fields whose numbers are given
    /// byte-reversed.
    pub fn from_fields_le(d1: u32, d2: u16, d3: u16, d4: &[u8; 8]) -> (r: Builder)
        ensures
            r@ == fields_le(d1, d2, d3, d4@),
    {
        Builder(Uuid::from_fields_le(d1, d2, d3, d4))
    }

    /// A builder that starts from the bytes of `v`, most significant first.
    pub fn from_u128(v: u128) -> (r: Builder)
        ensures
            r@ == be_bytes(v as nat, 16),
    {
        Builder(Uuid::from_u128(v))
    }

    /// A builder that starts from the bytes of `v`, least significant first.
    pub fn from_u128_le(v: u128) -> (r: Builder)
        ensures
            r@ == le_bytes(v as nat, 16),
    {
        Builder(Uuid::from_u128_le(v))
    }

    /// A builder that starts from the nil identifier.
    pub fn nil() -> (r: Builder)
        ensures
            r@ == filled(0),
    {
        Builder(Uuid::nil())
    }

    /// Writes the variant into the leading bits of byte 8, in place.
    pub fn set_variant(&mut self, v: Variant) -> (r: &mut Builder)
        ensures
            r@ == stamp_variant(old(self)@, v),
            *final(self) == *final(r),
    {
        *self = Builder(self.0).with_variant(v);
        self
    }

    /// Writes the variant into the leading bits of byte 8: one, two or three
    /// of them, as the variant has. Every other bit stays.
    pub fn with_variant(self, v: Variant) -> (r: Builder)
        ensures
            r@ == stamp_variant(self@, v),
    {
        let mut bytes = self.0.into_bytes();
        let byte = bytes[8];

        proof {
            assert({
                &&& byte & 0x7f == byte % 0x80
                &&& (byte & 0x3f) | 0x80 == 0x80 + byte % 0x40
                &&& (byte & 0x1f) | 0xc0 == 0xc0 + byte % 0x20
                &&& byte | 0xe0 == 0xe0 + byte % 0x20
            }) by (bit_vector);
        }
        bytes[8] = match v {
            Variant::NCS => byte & 0x7f,
            Variant::RFC4122 => (byte & 0x3f) | 0x80,
            Variant::Microsoft => (byte & 0x1f) | 0xc0,
            Variant::Future => byte | 0xe0,
        };

        Builder(Uuid::from_bytes(bytes))
    }

    /// Writes the version into the high nibble of byte 6, in place.
    pub fn set_version(&mut self, v: Version) -> (r: &mut Builder)
        ensures
            r@ == stamp_version(old(self)@, v),
            *final(self) == *final(r),
    {
        *self = Builder(self.0).with_version(v);
        self
    }

    /// Writes the version into the high nibble of byte 6. The low nibble, and
    /// every other byte, stays.
    pub fn with_version(self, v: Version) -> (r: Builder)
        ensures
            r@ == stamp_version(self@, v),
    {
        let mut bytes = self.0.into_bytes();
        let byte = bytes[6];
        let number = v.number();

        proof {
            assert((byte & 0x0f) | (number << 4) == number * 16 + byte % 16) by (bit_vector)
                requires
                    number <= 8,
            ;
        }
        bytes[6] = (byte & 0x0f) | (number << 4);

        Builder(Uuid::from_bytes(bytes))
    }

    /// The identifier as it stands.
    pub fn as_uuid(&self) -> (r: &Uuid)
        ensures
            *r == self.uuid(),
    {
        &self.0
    }

    /// Gives up the builder for the finished identifier.
    pub fn into_uuid(self) -> (r: Uuid)
        ensures
            r == self.uuid(),
    {
        self.0
    }
}

} // verus!
