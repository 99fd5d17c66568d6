//! `&str` ↔ UTF-16 with no allocation: the caller always provides the buffer.
use vstd::prelude::*;
use vstd::string::StringSliceAdditionalSpecFns;
use vstd::utf8::*;

use crate::error::{Result, SymbianError, error_of};
use crate::error_kind::ErrorKind;

verus! {

broadcast use crate::error::group_error;

/// The UTF-16 code units of one character: one unit inside the Basic Multilingual
/// Plane, a surrogate pair above it.
pub open spec fn char_utf16(c: char) -> Seq<u16> {
    let v = c as u32;
    if v < 0x1_0000 {
        seq![v as u16]
    } else {
        seq![
            (0xD800 + (v - 0x1_0000) / 0x400) as u16,
            (0xDC00 + (v - 0x1_0000) % 0x400) as u16,
        ]
    }
}

/// The UTF-16 encoding of a character sequence.
pub open spec fn utf16_of(chars: Seq<char>) -> Seq<u16>
    decreases chars.len(),
{
    if chars.len() == 0 {
        seq![]
    } else {
        char_utf16(chars[0]) + utf16_of(chars.drop_first())
    }
}

/// Whether a unit is a surrogate, the half of a pair that cannot stand alone.
pub open spec fn is_surrogate(u: u16) -> bool {
    0xD800 <= u <= 0xDFFF
}

/// Whether the units begin with a whole character: a unit that is not a surrogate, or
/// a high surrogate followed by a low one.
pub open spec fn starts_with_char16(units: Seq<u16>) -> bool {
    units.len() > 0 && (!is_surrogate(units[0]) || (units[0] <= 0xDBFF && units.len() >= 2
        && 0xDC00 <= units[1] <= 0xDFFF))
}

/// How many units the first character takes.
pub open spec fn first_width16(units: Seq<u16>) -> int {
    if !is_surrogate(units[0]) {
        1
    } else {
        2
    }
}

/// The scalar value of the first character.
pub open spec fn first_scalar16(units: Seq<u16>) -> u32 {
    if !is_surrogate(units[0]) {
        units[0] as u32
    } else {
        (0x1_0000 + (units[0] - 0xD800) * 0x400 + (units[1] - 0xDC00)) as u32
    }
}

/// The characters UTF-16 code units stand for, or `None` when one of them is an
/// unpaired surrogate.
pub open spec fn utf16_decode(units: Seq<u16>) -> Option<Seq<char>>
    decreases units.len(),
{
    if units.len() == 0 {
        Some(seq![])
    } else if !starts_with_char16(units) {
        None
    } else {
        match utf16_decode(units.skip(first_width16(units))) {
            Some(rest) => Some(seq![first_scalar16(units) as char] + rest),
            None => None,
        }
    }
}

/// What decoding `units` into a buffer of `room` bytes does, character by character:
/// the UTF-8 written, or the first failure met — `KErrArgument` for an unpaired
/// surrogate, `KErrOverflow` for a character that no longer fits.
pub open spec fn decode_into(units: Seq<u16>, room: int) -> core::result::Result<
    Seq<u8>,
    ErrorKind,
>
    decreases units.len(),
{
    if units.len() == 0 {
        Ok(seq![])
    } else if !starts_with_char16(units) {
        Err(ErrorKind::Argument)
    } else {
        let bytes = encode_scalar(first_scalar16(units));
        if bytes.len() > room {
            Err(ErrorKind::Overflow)
        } else {
            match decode_into(units.skip(first_width16(units)), room - bytes.len()) {
                Ok(rest) => Ok(bytes + rest),
                Err(e) => Err(e),
            }
        }
    }
}

/// The encoding of a concatenation is the concatenation of the encodings.
pub proof fn lemma_utf16_of_concat(a: Seq<char>, b: Seq<char>)
    ensures
        utf16_of(a + b) == utf16_of(a) + utf16_of(b),
    decreases a.len(),
{
    if a.len() == 0 {
        assert(a + b =~= b);
    } else {
        assert((a + b).drop_first() =~= a.drop_first() + b);
        lemma_utf16_of_concat(a.drop_first(), b);
        assert(char_utf16(a[0]) + (utf16_of(a.drop_first()) + utf16_of(b)) =~= (char_utf16(a[0])
            + utf16_of(a.drop_first())) + utf16_of(b));
    }
}

/// One character encodes to its own units.
pub proof fn lemma_utf16_of_single(c: char)
    ensures
        utf16_of(seq![c]) == char_utf16(c),
{
    assert(seq![c].drop_first() =~= Seq::<char>::empty());
    assert(seq![c][0] == c);
    assert(utf16_of(Seq::<char>::empty()) =~= Seq::<u16>::empty());
    assert(char_utf16(c) + Seq::<u16>::empty() =~= char_utf16(c));
}

/// Encoding one more character appends its units.
pub proof fn lemma_utf16_of_push(a: Seq<char>, c: char)
    ensures
        utf16_of(a.push(c)) == utf16_of(a) + char_utf16(c),
{
    lemma_utf16_of_concat(a, seq![c]);
    assert(a + seq![c] =~= a.push(c));
    lemma_utf16_of_single(c);
}

/// A character never takes more UTF-16 units than UTF-8 bytes.
pub proof fn lemma_utf16_not_longer_than_utf8(chars: Seq<char>)
    ensures
        chars.len() <= utf16_of(chars).len() <= encode_utf8(chars).len(),
    decreases chars.len(),
{
    if chars.len() > 0 {
        char_is_scalar(chars[0]);
        lemma_utf16_not_longer_than_utf8(chars.drop_first());
    }
}

/// A prefix of the characters encodes to a prefix of the units.
pub proof fn lemma_utf16_prefix(chars: Seq<char>, i: int)
    requires
        0 <= i <= chars.len(),
    ensures
        utf16_of(chars) == utf16_of(chars.take(i)) + utf16_of(chars.skip(i)),
{
    assert(chars =~= chars.take(i) + chars.skip(i));
    lemma_utf16_of_concat(chars.take(i), chars.skip(i));
}

/// The UTF-8 a successful `decode_into` writes is the encoding of what the units decode
/// to.
pub proof fn lemma_decode_into_is_utf8(units: Seq<u16>, room: int)
    requires
        decode_into(units, room) is Ok,
        room >= 0,
    ensures
        utf16_decode(units) is Some,
        decode_into(units, room)->Ok_0 == encode_utf8(utf16_decode(units)->Some_0),
        decode_into(units, room)->Ok_0.len() <= room,
    decreases units.len(),
{
    if units.len() > 0 {
        let w = first_width16(units);
        let v = first_scalar16(units);
        let b = encode_scalar(v);
        lemma_decode_into_is_utf8(units.skip(w), room - b.len());
        let rest = utf16_decode(units.skip(w))->Some_0;
        let cs = seq![v as char] + rest;
        assert(is_scalar(v));
        assert((v as char) as u32 == v);
        assert(cs.drop_first() =~= rest);
        assert(cs[0] == v as char);
    }
}

/// The units of one character begin with that whole character.
proof fn lemma_char_utf16_decodes(c: char, rest: Seq<u16>)
    ensures
        starts_with_char16(char_utf16(c) + rest),
        first_width16(char_utf16(c) + rest) == char_utf16(c).len(),
        first_scalar16(char_utf16(c) + rest) == c as u32,
        (char_utf16(c) + rest).skip(char_utf16(c).len() as int) == rest,
{
    char_is_scalar(c);
    let v = c as u32;
    let units = char_utf16(c) + rest;
    if v < 0x1_0000 {
        assert(units[0] == v as u16);
    } else {
        let w = v - 0x1_0000;
        assert(units[0] == (0xD800 + w / 0x400) as u16);
        assert(units[1] == (0xDC00 + w % 0x400) as u16);
        assert(0x1_0000 + ((0xD800 + w / 0x400) - 0xD800) * 0x400 + ((0xDC00 + w % 0x400) - 0xDC00)
            == v);
    }
    assert(units.skip(char_utf16(c).len() as int) =~= rest);
}

/// Decoding what was encoded gives the text back: UTF-16 made from characters never
/// holds an unpaired surrogate, and reads back as exactly those characters.
pub proof fn law_decode_of_encode(chars: Seq<char>)
    ensures
        utf16_decode(utf16_of(chars)) == Some(chars),
    decreases chars.len(),
{
    if chars.len() > 0 {
        let rest = utf16_of(chars.drop_first());
        lemma_char_utf16_decodes(chars[0], rest);
        law_decode_of_encode(chars.drop_first());
        char_is_scalar(chars[0]);
        char_u32_cast(chars[0], chars[0] as u32);
        assert(seq![chars[0]] + chars.drop_first() =~= chars);
    } else {
        assert(utf16_of(chars).len() == 0);
    }
}

/// Decoding encoded text into a buffer with room for its UTF-8 succeeds, and writes
/// exactly that UTF-8.
pub proof fn law_decode_into_of_encode(chars: Seq<char>, room: int)
    requires
        room >= encode_utf8(chars).len(),
    ensures
        decode_into(utf16_of(chars), room) == Ok::<Seq<u8>, ErrorKind>(encode_utf8(chars)),
    decreases chars.len(),
{
    if chars.len() > 0 {
        let c = chars[0];
        let rest = utf16_of(chars.drop_first());
        lemma_char_utf16_decodes(c, rest);
        char_is_scalar(c);
        law_decode_into_of_encode(chars.drop_first(), room - encode_scalar(c as u32).len());
    } else {
        assert(utf16_of(chars).len() == 0);
    }
}

/// How many UTF-16 code units `s` needs. Symbian text is UTF-16, so a `&str` outside the
/// Basic Multilingual Plane costs two units per character, not one.
pub fn utf16_len(s: &str) -> (n: usize)
    ensures
        n == utf16_of(s@).len(),
{
    let bytes = s.as_bytes();
    let _byte_len = bytes.len();
    proof {
        lemma_utf16_not_longer_than_utf8(s@);
        assert(bytes@.len() == encode_utf8(s@).len());
    }
    let mut n: usize = 0;
    for c in it: s.chars()
        invariant
            it.seq() == s@,
            n == utf16_of(s@.take(it.index() as int)).len(),
            utf16_of(s@).len() <= usize::MAX,
    {
        let ghost i = it.index();
        proof {
            assert(s@.take(i + 1) =~= s@.take(i as int).push(c));
            lemma_utf16_of_push(s@.take(i as int), c);
            lemma_utf16_prefix(s@, i + 1);
        }
        if (c as u32) < 0x1_0000 {
            n = n + 1;
        } else {
            n = n + 2;
        }
    }
    proof {
        assert(s@.take(s@.len() as int) =~= s@);
    }
    n
}

/// The units of one character, as the first unit, and the second when there is one.
fn char_units(c: char) -> (r: (u16, Option<u16>))
    ensures
        match r.1 {
            None => char_utf16(c) == seq![r.0],
            Some(low) => char_utf16(c) == seq![r.0, low],
        },
{
    let v = c as u32;
    if v < 0x1_0000 {
        (v as u16, None)
    } else {
        proof {
            char_is_scalar(c);
        }
        let w = v - 0x1_0000;
        ((0xD800 + w / 0x400) as u16, Some((0xDC00 + w % 0x400) as u16))
    }
}

/// Writes `s` as UTF-16 into `out` and returns how many code units it used.
///
/// Fails with `KErrOverflow` when `out` is too small; nothing is allocated and `out` is
/// left holding whatever was written before the overflow was noticed.
pub fn encode_utf16_into(s: &str, out: &mut [u16]) -> (r: Result<usize>)
    ensures
        final(out)@.len() == old(out)@.len(),
        match r {
            Ok(n) => {
                &&& n == utf16_of(s@).len()
                &&& n <= old(out)@.len()
                &&& final(out)@ == utf16_of(s@) + old(out)@.subrange(n as int, old(out)@.len() as int)
            },
            Err(e) => {
                &&& e == error_of(ErrorKind::Overflow)
                &&& utf16_of(s@).len() > old(out)@.len()
                &&& final(out)@ == utf16_of(s@).take(old(out)@.len() as int)
            },
        },
{
    let ghost total = utf16_of(s@);
    let ghost initial = out@;
    let len = out.len();
    let mut n: usize = 0;
    for c in it: s.chars()
        invariant
            it.seq() == s@,
            total == utf16_of(s@),
            len == out@.len(),
            initial == old(out)@,
            initial.len() == len,
            n <= len,
            n == utf16_of(s@.take(it.index() as int)).len(),
            out@ == utf16_of(s@.take(it.index() as int)) + initial.subrange(n as int, len as int),
    {
        let ghost i = it.index();
        let ghost done = utf16_of(s@.take(i as int));
        proof {
            assert(s@.take(i + 1) =~= s@.take(i as int).push(c));
            lemma_utf16_of_push(s@.take(i as int), c);
            lemma_utf16_prefix(s@, i as int);
            lemma_utf16_prefix(s@, i + 1);
            assert(s@.skip(i as int) =~= seq![c] + s@.skip(i + 1));
            lemma_utf16_of_concat(seq![c], s@.skip(i + 1));
            lemma_utf16_of_single(c);
        }
        let (first, second) = char_units(c);
        if n >= len {
            proof {
                assert(out@ =~= total.take(len as int));
            }
            return Err(SymbianError::of(ErrorKind::Overflow));
        }
        out[n] = first;
        n = n + 1;
        match second {
            None => {},
            Some(low) => {
                if n >= len {
                    proof {
                        assert(out@ =~= total.take(len as int));
                    }
                    return Err(SymbianError::of(ErrorKind::Overflow));
                }
                out[n] = low;
                n = n + 1;
            },
        }
        proof {
            assert(out@ =~= utf16_of(s@.take(i + 1)) + initial.subrange(n as int, len as int));
        }
    }
    proof {
        assert(s@.take(s@.len() as int) =~= s@);
    }
    Ok(n)
}

/// `core::str::from_utf8`, kept to what this crate asks of it.
///
/// std documents that it succeeds exactly when the bytes are well-formed UTF-8, and
/// that the string it returns is those bytes.
#[verifier::external_body]
pub(crate) fn utf8_str(bytes: &[u8]) -> (r: Option<&str>)
    ensures
        r is Some <==> valid_utf8(bytes@),
        r matches Some(s) ==> s.spec_bytes() == bytes@,
{
    core::str::from_utf8(bytes).ok()
}

/// Writes the UTF-8 encoding of one scalar at `out[at..]`, which has room for it.
fn put_utf8(out: &mut [u8], at: usize, v: u32) -> (width: usize)
    requires
        is_scalar(v),
        at + encode_scalar(v).len() <= old(out)@.len(),
    ensures
        width == encode_scalar(v).len(),
        final(out)@ == old(out)@.subrange(0, at as int) + encode_scalar(v) + old(out)@.subrange(
            at + width,
            old(out)@.len() as int,
        ),
{
    if v <= 0x7F {
        out[at] = (v & 0x7F) as u8;
        assert(final(out)@ =~= old(out)@.subrange(0, at as int) + encode_scalar(v) + old(out)@.subrange(
            at + 1,
            old(out)@.len() as int,
        ));
        1
    } else if v <= 0x7FF {
        out[at] = 0xC0 | ((v >> 6) & 0x1F) as u8;
        out[at + 1] = 0x80 | (v & 0x3F) as u8;
        assert(final(out)@ =~= old(out)@.subrange(0, at as int) + encode_scalar(v) + old(out)@.subrange(
            at + 2,
            old(out)@.len() as int,
        ));
        2
    } else if v <= 0xFFFF {
        out[at] = 0xE0 | ((v >> 12) & 0x0F) as u8;
        out[at + 1] = 0x80 | ((v >> 6) & 0x3F) as u8;
        out[at + 2] = 0x80 | (v & 0x3F) as u8;
        assert(final(out)@ =~= old(out)@.subrange(0, at as int) + encode_scalar(v) + old(out)@.subrange(
            at + 3,
            old(out)@.len() as int,
        ));
        3
    } else {
        out[at] = 0xF0 | ((v >> 18) & 0x7) as u8;
        out[at + 1] = 0x80 | ((v >> 12) & 0x3F) as u8;
        out[at + 2] = 0x80 | ((v >> 6) & 0x3F) as u8;
        out[at + 3] = 0x80 | (v & 0x3F) as u8;
        assert(final(out)@ =~= old(out)@.subrange(0, at as int) + encode_scalar(v) + old(out)@.subrange(
            at + 4,
            old(out)@.len() as int,
        ));
        4
    }
}

/// Decodes UTF-16 code units into `out` as UTF-8 and returns them as a `&str`.
///
/// Fails with `KErrArgument` for an unpaired surrogate and `KErrOverflow` when `out` is
/// too small. Nothing is allocated.
pub fn decode_utf16_into<'b>(units: &[u16], out: &'b mut [u8]) -> (r: Result<&'b str>)
    ensures
        final(out)@.len() == old(out)@.len(),
        match decode_into(units@, old(out)@.len() as int) {
            Ok(bytes) => {
                &&& r is Ok
                &&& r->Ok_0.spec_bytes() == bytes
                &&& Some(r->Ok_0@) == utf16_decode(units@)
                &&& final(out)@.take(bytes.len() as int) == bytes
            },
            Err(kind) => r == Err::<&str, SymbianError>(error_of(kind)),
        },
{
    let ghost whole = decode_into(units@, old(out)@.len() as int);
    let len = out.len();
    let count = units.len();
    let mut i: usize = 0;
    let mut n: usize = 0;
    proof {
        assert(units@.skip(0) =~= units@);
        match decode_into(units@, len as int) {
            Ok(rest) => {
                assert(out@.take(0) + rest =~= rest);
            },
            Err(e) => {},
        }
    }
    while i < count
        invariant
            count == units@.len(),
            len == out@.len(),
            len == old(out)@.len(),
            i <= count,
            n <= len,
            whole == decode_into(units@, len as int),
            whole == match decode_into(units@.skip(i as int), (len - n) as int) {
                Ok(rest) => Ok(out@.take(n as int) + rest),
                Err(e) => Err(e),
            },
        decreases count - i,
    {
        let ghost rest = units@.skip(i as int);
        let u = units[i];
        let v: u32;
        let step: usize;
        if u < 0xD800 || u > 0xDFFF {
            v = u as u32;
            step = 1;
        } else if u <= 0xDBFF && i + 1 < count && 0xDC00 <= units[i + 1] && units[i + 1] <= 0xDFFF {
            v = 0x1_0000 + (u as u32 - 0xD800) * 0x400 + (units[i + 1] as u32 - 0xDC00);
            step = 2;
        } else {
            assert(!starts_with_char16(rest));
            return Err(SymbianError::of(ErrorKind::Argument));
        }
        assert(starts_with_char16(rest));
        assert(v == first_scalar16(rest));
        assert(step == first_width16(rest));
        let width: usize = if v <= 0x7F {
            1
        } else if v <= 0x7FF {
            2
        } else if v <= 0xFFFF {
            3
        } else {
            4
        };
        assert(width == encode_scalar(v).len());
        if width > len - n {
            return Err(SymbianError::of(ErrorKind::Overflow));
        }
        let ghost before = out@;
        let written = put_utf8(out, n, v);
        proof {
            assert(rest.skip(step as int) =~= units@.skip(i + step));
            assert(out@.take(n + written) =~= before.take(n as int) + encode_scalar(v));
        }
        n = n + written;
        i = i + step;
        proof {
            match decode_into(units@.skip(i as int), (len - n) as int) {
                Ok(tail) => {
                    assert(before.take(n - written) + (encode_scalar(v) + tail) =~= out@.take(
                        n as int,
                    ) + tail);
                },
                Err(e) => {},
            }
        }
    }
    proof {
        assert(units@.skip(i as int).len() == 0);
        assert(out@.take(n as int) + Seq::<u8>::empty() =~= out@.take(n as int));
        lemma_decode_into_is_utf8(units@, len as int);
        encode_utf8_valid_utf8(utf16_decode(units@)->Some_0);
    }
    let done: &'b [u8] = out;
    let text = &done[0..n];
    match utf8_str(text) {
        Some(s) => {
            proof {
                encode_utf8_decode_utf8(utf16_decode(units@)->Some_0);
                encode_utf8_decode_utf8(s@);
            }
            Ok(s)
        },
        None => Err(SymbianError::of(ErrorKind::Corrupt)),
    }
}

} // verus!
