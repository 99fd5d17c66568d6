//! Text known at compile time, stored as UTF-16 too.
//!
//! Every Symbian text API takes UTF-16 and Rust text is UTF-8, so appending a `&str` to
//! a descriptor transcodes it at run time. A [`Utf16Str`] is the `&'static str` and its
//! UTF-16 code units, both computed ahead of time, so a destination that holds UTF-16
//! copies the units instead of converting the text. These conversions work on the
//! UTF-8 bytes directly.
use vstd::prelude::*;
use vstd::string::StringSliceAdditionalSpecFns;
use vstd::utf8::*;

use crate::des::utf16::{char_utf16, lemma_utf16_of_concat, lemma_utf16_prefix, utf16_of};

verus! {

/// The UTF-16 units a UTF-8 byte starts: none for a continuation byte, two for the lead
/// byte of a four-byte character, one otherwise.
pub open spec fn units_of_byte(b: u8) -> nat {
    if b & 0xc0 == 0x80 {
        0
    } else if b >= 0xf0 {
        2
    } else {
        1
    }
}

/// The UTF-16 units UTF-8 bytes encode, counted byte by byte.
pub open spec fn units_of_bytes(bytes: Seq<u8>) -> nat
    decreases bytes.len(),
{
    if bytes.len() == 0 {
        0
    } else {
        units_of_byte(bytes[0]) + units_of_bytes(bytes.drop_first())
    }
}

/// Counting splits over a concatenation.
proof fn lemma_units_of_bytes_concat(a: Seq<u8>, b: Seq<u8>)
    ensures
        units_of_bytes(a + b) == units_of_bytes(a) + units_of_bytes(b),
    decreases a.len(),
{
    if a.len() == 0 {
        assert(a + b =~= b);
    } else {
        assert((a + b).drop_first() =~= a.drop_first() + b);
        lemma_units_of_bytes_concat(a.drop_first(), b);
    }
}

/// One character's UTF-8 bytes count as many units as its UTF-16 has.
proof fn lemma_units_of_scalar(c: char)
    ensures
        units_of_bytes(encode_scalar(c as u32)) == char_utf16(c).len(),
{
    let v = c as u32;
    char_is_scalar(c);
    let e = encode_scalar(v);
    reveal_with_fuel(units_of_bytes, 5);
    if has_width_1_encoding(v) {
        let b0 = leading_byte_width_1(v);
        assert(b0 & 0xc0 != 0x80 && b0 < 0xf0) by (bit_vector)
            requires
                v <= 0x7F,
                b0 == (v & 0x7F) as u8,
        ;
        assert(e.drop_first().len() == 0);
    } else if has_width_2_encoding(v) {
        let b0 = leading_byte_width_2(v);
        let b1 = last_continuation_byte(v);
        assert(b0 & 0xc0 != 0x80 && b0 < 0xf0 && b1 & 0xc0 == 0x80) by (bit_vector)
            requires
                0x80 <= v <= 0x7FF,
                b0 == 0xC0 | ((v >> 6) & 0x1F) as u8,
                b1 == 0x80 | (v & 0x3F) as u8,
        ;
        assert(e.drop_first() =~= seq![b1]);
        assert(e.drop_first().drop_first().len() == 0);
    } else if has_width_3_encoding(v) {
        let b0 = leading_byte_width_3(v);
        let b1 = second_last_continuation_byte(v);
        let b2 = last_continuation_byte(v);
        assert(b0 & 0xc0 != 0x80 && b0 < 0xf0 && b1 & 0xc0 == 0x80 && b2 & 0xc0 == 0x80)
            by (bit_vector)
            requires
                0x800 <= v <= 0xFFFF,
                b0 == 0xE0 | ((v >> 12) & 0x0F) as u8,
                b1 == 0x80 | ((v >> 6) & 0x3F) as u8,
                b2 == 0x80 | (v & 0x3F) as u8,
        ;
        assert(e.drop_first() =~= seq![b1, b2]);
        assert(e.drop_first().drop_first() =~= seq![b2]);
        assert(e.drop_first().drop_first().drop_first().len() == 0);
    } else {
        let b0 = leading_byte_width_4(v);
        let b1 = third_last_continuation_byte(v);
        let b2 = second_last_continuation_byte(v);
        let b3 = last_continuation_byte(v);
        assert(b0 & 0xc0 != 0x80 && b0 >= 0xf0 && b1 & 0xc0 == 0x80 && b2 & 0xc0 == 0x80 && b3
            & 0xc0 == 0x80) by (bit_vector)
            requires
                0x10000 <= v <= 0x10FFFF,
                b0 == 0xF0 | ((v >> 18) & 0x7) as u8,
                b1 == 0x80 | ((v >> 12) & 0x3F) as u8,
                b2 == 0x80 | ((v >> 6) & 0x3F) as u8,
                b3 == 0x80 | (v & 0x3F) as u8,
        ;
        assert(e.drop_first() =~= seq![b1, b2, b3]);
        assert(e.drop_first().drop_first() =~= seq![b2, b3]);
        assert(e.drop_first().drop_first().drop_first() =~= seq![b3]);
        assert(e.drop_first().drop_first().drop_first().drop_first().len() == 0);
    }
}

/// Counting the units of a string's UTF-8 gives its UTF-16 length.
pub proof fn lemma_units_of_utf8(chars: Seq<char>)
    ensures
        units_of_bytes(encode_utf8(chars)) == utf16_of(chars).len(),
    decreases chars.len(),
{
    if chars.len() > 0 {
        lemma_units_of_bytes_concat(encode_scalar(chars[0] as u32), encode_utf8(chars.drop_first()));
        lemma_units_of_scalar(chars[0]);
        lemma_units_of_utf8(chars.drop_first());
    }
}

/// The UTF-8 of a concatenation is the concatenation of the UTF-8.
pub(crate) proof fn lemma_encode_utf8_concat(a: Seq<char>, b: Seq<char>)
    ensures
        encode_utf8(a + b) == encode_utf8(a) + encode_utf8(b),
    decreases a.len(),
{
    if a.len() == 0 {
        assert(a + b =~= b);
    } else {
        assert((a + b).drop_first() =~= a.drop_first() + b);
        lemma_encode_utf8_concat(a.drop_first(), b);
        assert(encode_scalar(a[0] as u32) + (encode_utf8(a.drop_first()) + encode_utf8(b))
            =~= (encode_scalar(a[0] as u32) + encode_utf8(a.drop_first())) + encode_utf8(b));
    }
}

/// How many UTF-16 code units `s` takes: one per character, two above U+FFFF (a UTF-8
/// lead byte of `0xF0` or more).
pub fn utf16_len(s: &str) -> (n: usize)
    ensures
        n == utf16_of(s@).len(),
{
    let bytes = s.as_bytes();
    let len = bytes.len();
    proof {
        lemma_units_of_utf8(s@);
        crate::des::utf16::lemma_utf16_not_longer_than_utf8(s@);
    }
    let mut i: usize = 0;
    let mut n: usize = 0;
    while i < len
        invariant
            len == bytes@.len(),
            bytes@ == encode_utf8(s@),
            i <= len,
            n == units_of_bytes(bytes@.take(i as int)),
            units_of_bytes(bytes@) == utf16_of(s@).len(),
            utf16_of(s@).len() <= len,
        decreases len - i,
    {
        let b = bytes[i];
        proof {
            assert(bytes@.take(i + 1) =~= bytes@.take(i as int) + seq![b]);
            lemma_units_of_bytes_concat(bytes@.take(i as int), seq![b]);
            assert(seq![b].drop_first().len() == 0);
            assert(seq![b][0] == b);
            assert(units_of_bytes(seq![b].drop_first()) == 0);
            assert(units_of_bytes(seq![b]) == units_of_byte(b));
            assert(bytes@ =~= bytes@.take(i + 1) + bytes@.skip(i + 1));
            lemma_units_of_bytes_concat(bytes@.take(i + 1), bytes@.skip(i + 1));
        }
        if b & 0xc0 != 0x80 {
            n = n + if b >= 0xf0 {
                2
            } else {
                1
            };
        }
        i = i + 1;
    }
    proof {
        assert(bytes@.take(len as int) =~= bytes@);
    }
    n
}

/// The byte at `at`, or 0 past the end. A `&str` is well-formed UTF-8, so every
/// continuation byte read is there.
fn continuation(bytes: &[u8], at: usize) -> (b: u32)
    ensures
        b == (if at < bytes@.len() {
            bytes@[at as int] as u32
        } else {
            0
        }),
{
    if at < bytes.len() {
        bytes[at] as u32
    } else {
        0
    }
}

/// Writes `unit` at `at` when it is inside `out`, and says where the next unit goes.
fn put<const N: usize>(out: &mut [u16; N], at: usize, unit: u16) -> (next: usize)
    requires
        at < usize::MAX,
    ensures
        next == at + 1,
        final(out)@ == (if at < N {
            old(out)@.update(at as int, unit)
        } else {
            old(out)@
        }),
{
    if at < N {
        out[at] = unit;
    }
    at + 1
}

/// `s` as UTF-16, in `N` units: the first `N` of the encoding, then zeros if it is
/// shorter. Called with `N = utf16_len(s)` the array is exactly the encoding; a unit
/// past `N` is dropped rather than written.
pub fn encode_utf16<const N: usize>(s: &str) -> (out: [u16; N])
    ensures
        forall|j: int|
            0 <= j < N ==> #[trigger] out@[j] == (if j < utf16_of(s@).len() {
                utf16_of(s@)[j]
            } else {
                0
            }),
{
    let bytes = s.as_bytes();
    let len = bytes.len();
    let ghost chars = s@;
    let ghost total = utf16_of(chars);
    proof {
        crate::des::utf16::lemma_utf16_not_longer_than_utf8(chars);
    }
    let mut out = [0u16; N];
    let mut i: usize = 0;
    let mut n: usize = 0;
    let ghost mut k: int = 0;
    proof {
        assert(chars.skip(0) =~= chars);
        assert(bytes@.skip(0) =~= bytes@);
        assert(chars.take(0) =~= Seq::<char>::empty());
    }
    while i < len
        invariant
            len == bytes@.len(),
            bytes@ == encode_utf8(chars),
            total == utf16_of(chars),
            total.len() <= len,
            0 <= k <= chars.len(),
            i <= len,
            bytes@.skip(i as int) == encode_utf8(chars.skip(k)),
            n == utf16_of(chars.take(k)).len(),
            out@.len() == N,
            forall|j: int|
                0 <= j < N ==> #[trigger] out@[j] == (if j < n {
                    total[j]
                } else {
                    0
                }),
        decreases len - i,
    {
        let ghost rest = chars.skip(k);
        proof {
            if rest.len() == 0 {
                assert(encode_utf8(rest).len() == 0);
                assert(false);
            }
            encode_utf8_first_scalar(rest);
            char_is_scalar(rest[0]);
            lemma_encode_utf8_concat(seq![rest[0]], rest.drop_first());
            assert(rest =~= seq![rest[0]] + rest.drop_first());
            assert(seq![rest[0]].drop_first() =~= Seq::<char>::empty());
            assert(encode_utf8(seq![rest[0]]) =~= encode_scalar(rest[0] as u32));
            lemma_utf16_prefix(chars, k);
            lemma_utf16_prefix(chars, k + 1);
            assert(chars.take(k + 1) =~= chars.take(k) + seq![rest[0]]);
            lemma_utf16_of_concat(chars.take(k), seq![rest[0]]);
            crate::des::utf16::lemma_utf16_of_single(rest[0]);
        }
        let lead = bytes[i] as u32;
        let width: usize;
        let c: u32;
        let ghost e = encode_scalar(rest[0] as u32);
        let ghost v = rest[0] as u32;
        if lead <= 0x7f {
            width = 1;
            c = lead;
            proof {
                let x0 = bytes@[i as int];
                assert(x0 <= 0x7f ==> (x0 & 0x7F) as u32 == x0 as u32) by (bit_vector);
            }
        } else if lead <= 0xdf {
            width = 2;
            let b1 = continuation(bytes, i + 1);
            c = ((lead & 0x1f) << 6) | (b1 & 0x3f);
            proof {
                let x0 = bytes@[i as int];
                let x1 = bytes@[i + 1];
                assert(((x0 as u32 & 0x1f) << 6) | (x1 as u32 & 0x3f) == (((x0 & 0x1F) as u32)
                    << 6) | ((x1 & 0x3f) as u32)) by (bit_vector);
            }
        } else if lead <= 0xef {
            width = 3;
            let b1 = continuation(bytes, i + 1);
            let b2 = continuation(bytes, i + 2);
            c = ((((lead & 0x0f) << 6) | (b1 & 0x3f)) << 6) | (b2 & 0x3f);
            proof {
                let x0 = bytes@[i as int];
                let x1 = bytes@[i + 1];
                let x2 = bytes@[i + 2];
                assert(((((x0 as u32 & 0x0f) << 6) | (x1 as u32 & 0x3f)) << 6) | (x2 as u32 & 0x3f)
                    == ((x0 & 0x0F) as u32) << 12 | ((x1 & 0x3f) as u32) << 6 | (x2 & 0x3f) as u32)
                    by (bit_vector);
            }
        } else {
            width = 4;
            let b1 = continuation(bytes, i + 1);
            let b2 = continuation(bytes, i + 2);
            let b3 = continuation(bytes, i + 3);
            c = ((((((lead & 0x07) << 6) | (b1 & 0x3f)) << 6) | (b2 & 0x3f)) << 6) | (b3 & 0x3f);
            proof {
                let x0 = bytes@[i as int];
                let x1 = bytes@[i + 1];
                let x2 = bytes@[i + 2];
                let x3 = bytes@[i + 3];
                assert(((((((x0 as u32 & 0x07) << 6) | (x1 as u32 & 0x3f)) << 6) | (x2 as u32
                    & 0x3f)) << 6) | (x3 as u32 & 0x3f) == ((x0 & 0x07) as u32) << 18 | ((x1 & 0x3f)
                    as u32) << 12 | ((x2 & 0x3f) as u32) << 6 | (x3 & 0x3f) as u32) by (bit_vector);
            }
        }
        proof {
            assert(encode_utf8(rest) == bytes@.skip(i as int));
            assert(c == decode_first_scalar(encode_utf8(rest)));
            assert(c == v);
            assert(width == e.len());
        }
        let ghost before = out@;
        if c >= 0x1_0000 {
            let w = c - 0x1_0000;
            let high = 0xd800 | (w >> 10) as u16;
            let low = 0xdc00 | (w & 0x3ff) as u16;
            proof {
                assert(high == (0xD800 + w / 0x400) as u16 && low == (0xDC00 + w % 0x400) as u16)
                    by (bit_vector)
                    requires
                        w < 0x10_0000,
                        high == 0xd800 | (w >> 10) as u16,
                        low == 0xdc00 | (w & 0x3ff) as u16,
                ;
            }
            n = put(&mut out, n, high);
            n = put(&mut out, n, low);
        } else {
            n = put(&mut out, n, c as u16);
        }
        proof {
            assert(bytes@.skip(i + width) =~= bytes@.skip(i as int).skip(width as int));
            assert(encode_utf8(rest).skip(width as int) =~= encode_utf8(rest.drop_first()));
            assert(rest.drop_first() =~= chars.skip(k + 1));
            k = k + 1;
            assert(bytes@.skip(i + width) =~= encode_utf8(chars.skip(k)));
            assert forall|j: int| 0 <= j < N implies #[trigger] out@[j] == (if j < n {
                total[j]
            } else {
                0
            }) by {
                assert(total == utf16_of(chars.take(k)) + utf16_of(chars.skip(k)));
            }
        }
        i = i + width;
    }
    proof {
        if k < chars.len() {
            assert(encode_utf8(chars.skip(k)).len() > 0) by {
                encode_utf8_first_scalar(chars.skip(k));
            }
        }
        assert(chars.take(k) =~= chars);
    }
    out
}

/// A `&'static str` together with its UTF-16 code units, both in the image.
#[derive(Clone, Copy)]
pub struct Utf16Str {
    text: &'static str,
    units: &'static [u16],
}

impl Utf16Str {
    /// The two always hold the same text.
    #[verifier::type_invariant]
    closed spec fn wf(self) -> bool {
        self.units@ == utf16_of(self.text@)
    }

    /// The text, for contracts.
    pub closed spec fn spec_text(&self) -> &'static str {
        self.text
    }

    /// What the `utf16!` expansion builds. Not an API: `units` must be the encoding of
    /// `text`, which only the macro guarantees.
    pub fn __encoded(text: &'static str, units: &'static [u16]) -> (r: Self)
        requires
            units@ == utf16_of(text@),
        ensures
            r.spec_text() == text,
    {
        Utf16Str { text, units }
    }

    /// The text as UTF-8.
    pub fn as_str(&self) -> (s: &'static str)
        ensures
            s == self.spec_text(),
    {
        self.text
    }

    /// The text as UTF-16 code units.
    pub fn units(&self) -> (units: &'static [u16])
        ensures
            units@ == utf16_of(self.spec_text()@),
    {
        proof {
            use_type_invariant(self);
        }
        self.units
    }
}

/// A `Utf16Str` reads as the `str` it holds: `GREETING.len()` is the text's length.
impl core::ops::Deref for Utf16Str {
    type Target = str;

    fn deref(&self) -> (s: &str)
        ensures
            s == self.spec_text(),
    {
        self.text
    }
}

} // verus!
