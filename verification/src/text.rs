//! The text of an identifier: thirty-two hexadecimal digits in groups of
//! eight, four, four, four and twelve, with a hyphen between the groups.

use crate::value::Uuid;
use vstd::prelude::*;

verus! {

/// The lower-case hexadecimal digit for a number below sixteen, in ASCII.
pub open spec fn hex_digit(n: nat) -> u8 {
    if n < 10 {
        (0x30 + n) as u8
    } else {
        (0x57 + n) as u8
    }
}

/// Two hexadecimal digits for each byte, the high nibble first.
pub open spec fn hex(b: Seq<u8>) -> Seq<u8>
    decreases b.len(),
{
    if b.len() == 0 {
        Seq::empty()
    } else {
        hex(b.drop_last()) + seq![
            hex_digit((b.last() / 16) as nat),
            hex_digit((b.last() % 16) as nat),
        ]
    }
}

/// The hyphenated text of sixteen bytes, in ASCII.
pub open spec fn hyphenated(b: Seq<u8>) -> Seq<u8> {
    hex(b.subrange(0, 4)) + seq![0x2du8] + hex(b.subrange(4, 6)) + seq![0x2du8] + hex(
        b.subrange(6, 8),
    ) + seq![0x2du8] + hex(b.subrange(8, 10)) + seq![0x2du8] + hex(b.subrange(10, 16))
}

/// The digits of a run of bytes, place by place.
pub proof fn lemma_hex(b: Seq<u8>)
    ensures
        hex(b).len() == 2 * b.len(),
        forall|i: int|
            0 <= i < b.len() ==> #[trigger] hex(b)[2 * i] == hex_digit((b[i] / 16) as nat) && hex(
                b,
            )[2 * i + 1] == hex_digit((b[i] % 16) as nat),
    decreases b.len(),
{
    if b.len() > 0 {
        lemma_hex(b.drop_last());
        assert forall|i: int| 0 <= i < b.len() implies #[trigger] hex(b)[2 * i] == hex_digit(
            (b[i] / 16) as nat,
        ) && hex(b)[2 * i + 1] == hex_digit((b[i] % 16) as nat) by {
            if i < b.len() - 1 {
                assert(hex(b.drop_last())[2 * i] == hex_digit((b.drop_last()[i] / 16) as nat));
            }
        }
    }
}

/// The digit for a number below sixteen.
fn digit(n: u8) -> (d: u8)
    requires
        n < 16,
    ensures
        d == hex_digit(n as nat),
{
    if n < 10 {
        0x30 + n
    } else {
        0x57 + n
    }
}

/// How many hyphens stand before the digits of byte `i`.
spec fn hyphens_before(i: int) -> int {
    if i < 4 {
        0
    } else if i < 6 {
        1
    } else if i < 8 {
        2
    } else if i < 10 {
        3
    } else {
        4
    }
}

/// The hyphenated text, place by place: the digits of byte `i` stand behind
/// those of the bytes before it and the hyphens before it.
proof fn lemma_hyphenated(b: Seq<u8>)
    requires
        b.len() == 16,
    ensures
        hyphenated(b).len() == 36,
        hyphenated(b)[8] == 0x2d,
        hyphenated(b)[13] == 0x2d,
        hyphenated(b)[18] == 0x2d,
        hyphenated(b)[23] == 0x2d,
        forall|i: int|
            0 <= i < 16 ==> #[trigger] hyphenated(b)[2 * i + hyphens_before(i)] == hex_digit(
                (b[i] / 16) as nat,
            ) && hyphenated(b)[2 * i + hyphens_before(i) + 1] == hex_digit((b[i] % 16) as nat),
{
    let g0 = b.subrange(0, 4);
    let g1 = b.subrange(4, 6);
    let g2 = b.subrange(6, 8);
    let g3 = b.subrange(8, 10);
    let g4 = b.subrange(10, 16);
    lemma_hex(g0);
    lemma_hex(g1);
    lemma_hex(g2);
    lemma_hex(g3);
    lemma_hex(g4);
    let t = hyphenated(b);
    assert forall|i: int| 0 <= i < 16 implies #[trigger] t[2 * i + hyphens_before(i)] == hex_digit(
        (b[i] / 16) as nat,
    ) && t[2 * i + hyphens_before(i) + 1] == hex_digit((b[i] % 16) as nat) by {
        if i < 4 {
            assert(t[2 * i] == hex(g0)[2 * i] && t[2 * i + 1] == hex(g0)[2 * i + 1]);
            assert(g0[i] == b[i]);
        } else if i < 6 {
            let j = i - 4;
            assert(t[2 * i + 1] == hex(g1)[2 * j] && t[2 * i + 2] == hex(g1)[2 * j + 1]);
            assert(g1[j] == b[i]);
        } else if i < 8 {
            let j = i - 6;
            assert(t[2 * i + 2] == hex(g2)[2 * j] && t[2 * i + 3] == hex(g2)[2 * j + 1]);
            assert(g2[j] == b[i]);
        } else if i < 10 {
            let j = i - 8;
            assert(t[2 * i + 3] == hex(g3)[2 * j] && t[2 * i + 4] == hex(g3)[2 * j + 1]);
            assert(g3[j] == b[i]);
        } else {
            let j = i - 10;
            assert(t[2 * i + 4] == hex(g4)[2 * j] && t[2 * i + 5] == hex(g4)[2 * j + 1]);
            assert(g4[j] == b[i]);
        }
    }
}

impl Uuid {
    /// The hyphenated text of the identifier in lower case, as thirty-six
    /// ASCII characters.
    pub fn encode_hyphenated(&self) -> (text: [u8; 36])
        ensures
            text@ == hyphenated(self@),
    {
        let bytes = self.as_bytes();
        let mut text = [0x2du8;36];
        let mut i: usize = 0;
        while i < 16
            invariant
                i <= 16,
                bytes@ == self@,
                text@[8] == 0x2d,
                text@[13] == 0x2d,
                text@[18] == 0x2d,
                text@[23] == 0x2d,
                forall|j: int|
                    0 <= j < i ==> #[trigger] text@[2 * j + hyphens_before(j)] == hex_digit(
                        (self@[j] / 16) as nat,
                    ) && text@[2 * j + hyphens_before(j) + 1] == hex_digit((self@[j] % 16) as nat),
            decreases 16 - i,
        {
            let hyphens: usize = if i < 4 {
                0
            } else if i < 6 {
                1
            } else if i < 8 {
                2
            } else if i < 10 {
                3
            } else {
                4
            };
            let at: usize = 2 * i + hyphens;
            let byte = bytes[i];
            assert(byte >> 4 == byte / 16 && byte & 0x0f == byte % 16) by (bit_vector);
            let ghost before = text@;
            text[at] = digit(byte >> 4);
            text[at + 1] = digit(byte & 0x0f);
            proof {
                assert forall|j: int| 0 <= j < i + 1 implies #[trigger] text@[2 * j
                    + hyphens_before(j)] == hex_digit((self@[j] / 16) as nat) && text@[2 * j
                    + hyphens_before(j) + 1] == hex_digit((self@[j] % 16) as nat) by {
                    if j < i {
                        let k = 2 * j + hyphens_before(j);
                        assert(k + 1 < at);
                        assert(before[k] == hex_digit((self@[j] / 16) as nat));
                        assert(text@[k] == before[k] && text@[k + 1] == before[k + 1]);
                    }
                }
            }
            i += 1;
        }
        proof {
            lemma_hyphenated(self@);
            let want = hyphenated(self@);
            assert forall|k: int| 0 <= k < 36 implies text@[k] == want[k] by {
                if k == 8 || k == 13 || k == 18 || k == 23 {
                } else {
                    let j: int = if k < 8 {
                        k / 2
                    } else if k < 13 {
                        (k - 1) / 2
                    } else if k < 18 {
                        (k - 2) / 2
                    } else if k < 23 {
                        (k - 3) / 2
                    } else {
                        (k - 4) / 2
                    };
                    assert(k == 2 * j + hyphens_before(j) || k == 2 * j + hyphens_before(j) + 1);
                    assert(text@[2 * j + hyphens_before(j)] == want[2 * j + hyphens_before(j)]);
                }
            }
            assert(text@ =~= want);
        }
        text
    }
}

} // verus!
