//! The mathematical model of the sixteen-byte layout.
//!
//! An identifier is modelled by the sequence of its sixteen bytes in RFC order:
//! a 32-bit field in bytes 0 to 3, two 16-bit fields in bytes 4 to 5 and 6 to 7,
//! and a tail of eight bytes. The functions here say, over sequences of bytes
//! and unbounded integers, what each way of building an identifier puts where.

use vstd::prelude::*;

verus! {

/// The `n` low-order base-256 digits of `v`, most significant digit first.
pub open spec fn be_bytes(v: nat, n: nat) -> Seq<u8>
    decreases n,
{
    if n == 0 {
        Seq::empty()
    } else {
        be_bytes(v / 256, (n - 1) as nat).push((v % 256) as u8)
    }
}

/// The `n` low-order base-256 digits of `v`, least significant digit first.
pub open spec fn le_bytes(v: nat, n: nat) -> Seq<u8>
    decreases n,
{
    if n == 0 {
        Seq::empty()
    } else {
        seq![(v % 256) as u8] + le_bytes(v / 256, (n - 1) as nat)
    }
}

/// Sixteen bytes, each of them `byte`.
pub open spec fn filled(byte: u8) -> Seq<u8> {
    Seq::new(16, |i: int| byte)
}

/// The layout of four fields in RFC order: each number most significant byte
/// first, the tail as it is.
pub open spec fn fields_be(d1: u32, d2: u16, d3: u16, d4: Seq<u8>) -> Seq<u8> {
    be_bytes(d1 as nat, 4) + be_bytes(d2 as nat, 2) + be_bytes(d3 as nat, 2) + d4
}

/// The layout of four fields with the three numbers byte-reversed: each number
/// least significant byte first, the tail as it is.
pub open spec fn fields_le(d1: u32, d2: u16, d3: u16, d4: Seq<u8>) -> Seq<u8> {
    le_bytes(d1 as nat, 4) + le_bytes(d2 as nat, 2) + le_bytes(d3 as nat, 2) + d4
}

/// `b` with the bytes of each of its three numeric fields reversed (bytes 0 to
/// 3, 4 to 5 and 6 to 7) and bytes 8 to 15 unchanged.
pub open spec fn swap_fields(b: Seq<u8>) -> Seq<u8> {
    b.subrange(0, 4).reverse() + b.subrange(4, 6).reverse() + b.subrange(6, 8).reverse()
        + b.subrange(8, 16)
}

/// Whether `a` comes before `b` when the two are compared byte by byte from the
/// first: they agree up to some place, and there `a` holds the smaller byte.
pub open spec fn lex_less(a: Seq<u8>, b: Seq<u8>) -> bool {
    exists|k: int|
        0 <= k < a.len() && k < b.len() && a.subrange(0, k) == b.subrange(0, k) && a[k] < b[k]
}

/// Both encodings of a number in `n` bytes have `n` bytes.
pub proof fn lemma_bytes_len(v: nat, n: nat)
    ensures
        be_bytes(v, n).len() == n,
        le_bytes(v, n).len() == n,
    decreases n,
{
    if n > 0 {
        lemma_bytes_len(v / 256, (n - 1) as nat);
    }
}

/// The little-endian encoding of a number is its big-endian encoding read backwards.
pub proof fn lemma_le_bytes_reverses_be(v: nat, n: nat)
    ensures
        le_bytes(v, n) == be_bytes(v, n).reverse(),
    decreases n,
{
    lemma_bytes_len(v, n);
    if n > 0 {
        lemma_bytes_len(v / 256, (n - 1) as nat);
        lemma_le_bytes_reverses_be(v / 256, (n - 1) as nat);
    }
    assert(le_bytes(v, n) =~= be_bytes(v, n).reverse());
}

/// Reversing the three numeric fields twice gives the sixteen bytes back.
pub proof fn lemma_swap_fields_involution(b: Seq<u8>)
    requires
        b.len() == 16,
    ensures
        swap_fields(b).len() == 16,
        swap_fields(swap_fields(b)) == b,
{
    assert(swap_fields(swap_fields(b)) =~= b);
}

/// The two sentinels come out of every layout: all-zero input gives sixteen
/// zero bytes, all-one input gives sixteen bytes `0xFF`, in either byte order.
pub proof fn lemma_sentinel_layouts()
    ensures
        be_bytes(0, 16) == filled(0),
        le_bytes(0, 16) == filled(0),
        be_bytes(0, 8) + be_bytes(0, 8) == filled(0),
        fields_be(0, 0, 0, Seq::new(8, |i: int| 0u8)) == filled(0),
        fields_le(0, 0, 0, Seq::new(8, |i: int| 0u8)) == filled(0),
        swap_fields(filled(0)) == filled(0),
        be_bytes(u128::MAX as nat, 16) == filled(0xFF),
        le_bytes(u128::MAX as nat, 16) == filled(0xFF),
        be_bytes(u64::MAX as nat, 8) + be_bytes(u64::MAX as nat, 8) == filled(0xFF),
        fields_be(u32::MAX, u16::MAX, u16::MAX, Seq::new(8, |i: int| 0xFFu8)) == filled(0xFF),
        fields_le(u32::MAX, u16::MAX, u16::MAX, Seq::new(8, |i: int| 0xFFu8)) == filled(0xFF),
        swap_fields(filled(0xFF)) == filled(0xFF),
{
    reveal_with_fuel(be_bytes, 17);
    reveal_with_fuel(le_bytes, 17);
}

/// With the same four fields, the byte-reversed layout is the RFC layout with
/// its three numeric fields reversed.
pub proof fn lemma_fields_le_swaps_fields_be(d1: u32, d2: u16, d3: u16, d4: Seq<u8>)
    requires
        d4.len() == 8,
    ensures
        fields_be(d1, d2, d3, d4).len() == 16,
        fields_le(d1, d2, d3, d4) == swap_fields(fields_be(d1, d2, d3, d4)),
{
    lemma_bytes_len(d1 as nat, 4);
    lemma_bytes_len(d2 as nat, 2);
    lemma_bytes_len(d3 as nat, 2);
    lemma_le_bytes_reverses_be(d1 as nat, 4);
    lemma_le_bytes_reverses_be(d2 as nat, 2);
    lemma_le_bytes_reverses_be(d3 as nat, 2);
    let b = fields_be(d1, d2, d3, d4);
    assert(b.subrange(0, 4) =~= be_bytes(d1 as nat, 4));
    assert(b.subrange(4, 6) =~= be_bytes(d2 as nat, 2));
    assert(b.subrange(6, 8) =~= be_bytes(d3 as nat, 2));
    assert(b.subrange(8, 16) =~= d4);
}

/// The two bytes of a 16-bit number, by shifts.
pub(crate) proof fn lemma_bytes_u16(v: u16)
    ensures
        be_bytes(v as nat, 2) == seq![
            (v >> 8) as u8,
            v as u8,
        ],
        le_bytes(v as nat, 2) == seq![
            v as u8,
            (v >> 8) as u8,
        ],
{
    reveal_with_fuel(be_bytes, 3);
    let q1 = v / 256;
    assert({
        &&& v as u8 == v % 256
        &&& (v >> 8) as u8 == q1 % 256
    }) by (bit_vector)
        requires
            q1 == v / 256,
    ;
    assert(be_bytes(v as nat, 2) =~= seq![
        (v >> 8) as u8,
        v as u8,
    ]);
    lemma_le_bytes_reverses_be(v as nat, 2);
    assert(be_bytes(v as nat, 2).reverse() =~= seq![
        v as u8,
        (v >> 8) as u8,
    ]);
}

/// The four bytes of a 32-bit number, by shifts.
pub(crate) proof fn lemma_bytes_u32(v: u32)
    ensures
        be_bytes(v as nat, 4) == seq![
            (v >> 24) as u8,
            (v >> 16) as u8,
            (v >> 8) as u8,
            v as u8,
        ],
        le_bytes(v as nat, 4) == seq![
            v as u8,
            (v >> 8) as u8,
            (v >> 16) as u8,
            (v >> 24) as u8,
        ],
{
    reveal_with_fuel(be_bytes, 5);
    let q1 = v / 256;
    let q2 = q1 / 256;
    let q3 = q2 / 256;
    assert({
        &&& v as u8 == v % 256
        &&& (v >> 8) as u8 == q1 % 256
        &&& (v >> 16) as u8 == q2 % 256
        &&& (v >> 24) as u8 == q3 % 256
    }) by (bit_vector)
        requires
            q1 == v / 256,
            q2 == q1 / 256,
            q3 == q2 / 256,
    ;
    assert(be_bytes(v as nat, 4) =~= seq![
        (v >> 24) as u8,
        (v >> 16) as u8,
        (v >> 8) as u8,
        v as u8,
    ]);
    lemma_le_bytes_reverses_be(v as nat, 4);
    assert(be_bytes(v as nat, 4).reverse() =~= seq![
        v as u8,
        (v >> 8) as u8,
        (v >> 16) as u8,
        (v >> 24) as u8,
    ]);
}

/// The eight bytes of a 64-bit number, by shifts.
pub(crate) proof fn lemma_bytes_u64(v: u64)
    ensures
        be_bytes(v as nat, 8) == seq![
            (v >> 56) as u8,
            (v >> 48) as u8,
            (v >> 40) as u8,
            (v >> 32) as u8,
            (v >> 24) as u8,
            (v >> 16) as u8,
            (v >> 8) as u8,
            v as u8,
        ],
        le_bytes(v as nat, 8) == seq![
            v as u8,
            (v >> 8) as u8,
            (v >> 16) as u8,
            (v >> 24) as u8,
            (v >> 32) as u8,
            (v >> 40) as u8,
            (v >> 48) as u8,
            (v >> 56) as u8,
        ],
{
    reveal_with_fuel(be_bytes, 9);
    let q1 = v / 256;
    let q2 = q1 / 256;
    let q3 = q2 / 256;
    let q4 = q3 / 256;
    let q5 = q4 / 256;
    let q6 = q5 / 256;
    let q7 = q6 / 256;
    assert({
        &&& v as u8 == v % 256
        &&& (v >> 8) as u8 == q1 % 256
        &&& (v >> 16) as u8 == q2 % 256
        &&& (v >> 24) as u8 == q3 % 256
        &&& (v >> 32) as u8 == q4 % 256
        &&& (v >> 40) as u8 == q5 % 256
        &&& (v >> 48) as u8 == q6 % 256
        &&& (v >> 56) as u8 == q7 % 256
    }) by (bit_vector)
        requires
            q1 == v / 256,
            q2 == q1 / 256,
            q3 == q2 / 256,
            q4 == q3 / 256,
            q5 == q4 / 256,
            q6 == q5 / 256,
            q7 == q6 / 256,
    ;
    assert(be_bytes(v as nat, 8) =~= seq![
        (v >> 56) as u8,
        (v >> 48) as u8,
        (v >> 40) as u8,
        (v >> 32) as u8,
        (v >> 24) as u8,
        (v >> 16) as u8,
        (v >> 8) as u8,
        v as u8,
    ]);
    lemma_le_bytes_reverses_be(v as nat, 8);
    assert(be_bytes(v as nat, 8).reverse() =~= seq![
        v as u8,
        (v >> 8) as u8,
        (v >> 16) as u8,
        (v >> 24) as u8,
        (v >> 32) as u8,
        (v >> 40) as u8,
        (v >> 48) as u8,
        (v >> 56) as u8,
    ]);
}

/// The sixteen bytes of a 128-bit number, by shifts.
pub(crate) proof fn lemma_bytes_u128(v: u128)
    ensures
        be_bytes(v as nat, 16) == seq![
            (v >> 120) as u8,
            (v >> 112) as u8,
            (v >> 104) as u8,
            (v >> 96) as u8,
            (v >> 88) as u8,
            (v >> 80) as u8,
            (v >> 72) as u8,
            (v >> 64) as u8,
            (v >> 56) as u8,
            (v >> 48) as u8,
            (v >> 40) as u8,
            (v >> 32) as u8,
            (v >> 24) as u8,
            (v >> 16) as u8,
            (v >> 8) as u8,
            v as u8,
        ],
        le_bytes(v as nat, 16) == seq![
            v as u8,
            (v >> 8) as u8,
            (v >> 16) as u8,
            (v >> 24) as u8,
            (v >> 32) as u8,
            (v >> 40) as u8,
            (v >> 48) as u8,
            (v >> 56) as u8,
            (v >> 64) as u8,
            (v >> 72) as u8,
            (v >> 80) as u8,
            (v >> 88) as u8,
            (v >> 96) as u8,
            (v >> 104) as u8,
            (v >> 112) as u8,
            (v >> 120) as u8,
        ],
{
    reveal_with_fuel(be_bytes, 17);
    let q1 = v / 256;
    let q2 = q1 / 256;
    let q3 = q2 / 256;
    let q4 = q3 / 256;
    let q5 = q4 / 256;
    let q6 = q5 / 256;
    let q7 = q6 / 256;
    let q8 = q7 / 256;
    let q9 = q8 / 256;
    let q10 = q9 / 256;
    let q11 = q10 / 256;
    let q12 = q11 / 256;
    let q13 = q12 / 256;
    let q14 = q13 / 256;
    let q15 = q14 / 256;
    assert({
        &&& v as u8 == v % 256
        &&& (v >> 8) as u8 == q1 % 256
        &&& (v >> 16) as u8 == q2 % 256
        &&& (v >> 24) as u8 == q3 % 256
        &&& (v >> 32) as u8 == q4 % 256
        &&& (v >> 40) as u8 == q5 % 256
        &&& (v >> 48) as u8 == q6 % 256
        &&& (v >> 56) as u8 == q7 % 256
        &&& (v >> 64) as u8 == q8 % 256
        &&& (v >> 72) as u8 == q9 % 256
        &&& (v >> 80) as u8 == q10 % 256
        &&& (v >> 88) as u8 == q11 % 256
        &&& (v >> 96) as u8 == q12 % 256
        &&& (v >> 104) as u8 == q13 % 256
        &&& (v >> 112) as u8 == q14 % 256
        &&& (v >> 120) as u8 == q15 % 256
    }) by (bit_vector)
        requires
            q1 == v / 256,
            q2 == q1 / 256,
            q3 == q2 / 256,
            q4 == q3 / 256,
            q5 == q4 / 256,
            q6 == q5 / 256,
            q7 == q6 / 256,
            q8 == q7 / 256,
            q9 == q8 / 256,
            q10 == q9 / 256,
            q11 == q10 / 256,
            q12 == q11 / 256,
            q13 == q12 / 256,
            q14 == q13 / 256,
            q15 == q14 / 256,
    ;
    assert(be_bytes(v as nat, 16) =~= seq![
        (v >> 120) as u8,
        (v >> 112) as u8,
        (v >> 104) as u8,
        (v >> 96) as u8,
        (v >> 88) as u8,
        (v >> 80) as u8,
        (v >> 72) as u8,
        (v >> 64) as u8,
        (v >> 56) as u8,
        (v >> 48) as u8,
        (v >> 40) as u8,
        (v >> 32) as u8,
        (v >> 24) as u8,
        (v >> 16) as u8,
        (v >> 8) as u8,
        v as u8,
    ]);
    lemma_le_bytes_reverses_be(v as nat, 16);
    assert(be_bytes(v as nat, 16).reverse() =~= seq![
        v as u8,
        (v >> 8) as u8,
        (v >> 16) as u8,
        (v >> 24) as u8,
        (v >> 32) as u8,
        (v >> 40) as u8,
        (v >> 48) as u8,
        (v >> 56) as u8,
        (v >> 64) as u8,
        (v >> 72) as u8,
        (v >> 80) as u8,
        (v >> 88) as u8,
        (v >> 96) as u8,
        (v >> 104) as u8,
        (v >> 112) as u8,
        (v >> 120) as u8,
    ]);
}

} // verus!
