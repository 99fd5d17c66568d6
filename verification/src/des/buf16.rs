//! `Buf16<N>`: a `TBuf16<N>` on the stack, the descriptor most Symbian code uses.
use vstd::prelude::*;

use super::utf16::{char_utf16, utf16_decode, decode_into, utf16_of};
use super::{EBUF, MAX_LENGTH, Sealed, header, header_kind, header_len, header_spec};
use crate::error::{Result, SymbianError, error_of};
use crate::error_kind::ErrorKind;

verus! {

broadcast use crate::error::group_error;

/// A modifiable descriptor holding up to `N` UTF-16 code units inside itself.
///
/// The fields are the observed `TBuf16<N>`: the header word (`0x3xxxxxxx`, `EBuf`), then
/// `iMaxLength`, then the code units at offset 8. Here the array is exactly `N` units
/// and `iMaxLength` is `N`, so a Symbian API that respects `iMaxLength` — as every
/// descriptor function does — stays inside the array.
pub struct Buf16<const N: usize> {
    type_length: u32,
    max_length: i32,
    buf: [u16; N],
}

impl<const N: usize> View for Buf16<N> {
    type V = Seq<u16>;

    /// The code units the buffer holds.
    closed spec fn view(&self) -> Seq<u16> {
        self.buf@.take(header_len(self.type_length) as int)
    }
}

impl<const N: usize> Buf16<N> {
    /// The header keeps the `EBuf` type and a length within the array, and `iMaxLength`
    /// is the array's size.
    #[verifier::type_invariant]
    closed spec fn wf(self) -> bool {
        &&& N <= MAX_LENGTH
        &&& self.max_length == N as i32
        &&& header_kind(self.type_length) == EBUF
        &&& header_len(self.type_length) <= N
    }

    /// The header word, for contracts.
    pub closed spec fn spec_header(&self) -> u32 {
        self.type_length
    }

    /// An empty buffer.
    ///
    /// `N` has to fit both the 28-bit length field and `iMaxLength`'s `TInt`.
    pub fn new() -> (b: Self)
        requires
            N <= MAX_LENGTH,
        ensures
            b@ == Seq::<u16>::empty(),
    {
        let b = Buf16 { type_length: header(EBUF, 0), max_length: N as i32, buf: [0u16; N] };
        assert(b@ =~= Seq::<u16>::empty());
        b
    }

    /// The greatest number of code units this buffer can hold (`iMaxLength`).
    pub fn capacity(&self) -> (n: usize)
        ensures
            n == N,
    {
        N
    }

    /// Drops everything the buffer holds.
    pub fn clear(&mut self)
        ensures
            final(self)@ == Seq::<u16>::empty(),
    {
        proof {
            use_type_invariant(&*self);
        }
        self.type_length = header(EBUF, 0);
        assert(self@ =~= Seq::<u16>::empty());
    }

    /// The header word, for a layout check.
    ///
    /// Whatever was pushed, cleared or refused before, the header is `EBuf` with the
    /// number of units held, and that number never passes `N`.
    pub fn header_word(&self) -> (word: u32)
        ensures
            word == header_spec(EBUF, self@.len()),
            header_kind(word) == EBUF,
            header_len(word) == self@.len(),
            self@.len() <= N,
    {
        proof {
            use_type_invariant(self);
            super::lemma_header_word(self.type_length);
        }
        self.type_length
    }

    /// The number of code units held.
    pub fn length(&self) -> (n: usize)
        ensures
            n == self@.len(),
            n <= N,
    {
        proof {
            use_type_invariant(self);
        }
        (self.type_length & MAX_LENGTH as u32) as usize
    }

    /// The code units the descriptor currently holds.
    pub fn units(&self) -> (units: &[u16])
        ensures
            units@ == self@,
            units@.len() <= N,
    {
        let len = self.length();
        proof {
            use_type_invariant(self);
        }
        let all = self.buf.as_slice();
        &all[0..len]
    }

    /// Appends code units that are already UTF-16.
    ///
    /// Fails with `KErrOverflow` if they do not fit, leaving the buffer as it was.
    pub fn append_units(&mut self, units: &[u16]) -> (r: Result<()>)
        ensures
            r is Ok <==> old(self)@.len() + units@.len() <= N,
            r is Ok ==> final(self)@ == old(self)@ + units@,
            r is Err ==> final(self)@ == old(self)@ && r == Err::<(), SymbianError>(error_of(
                ErrorKind::Overflow,
            )),
    {
        proof {
            use_type_invariant(&*self);
        }
        let len = self.length();
        let extra = units.len();
        if extra > N - len {
            return Err(SymbianError::of(ErrorKind::Overflow));
        }
        let end = len + extra;
        let mut i: usize = 0;
        while i < extra
            invariant
                len + extra == end,
                end <= N,
                i <= extra,
                extra == units@.len(),
                len == header_len(self.type_length),
                len == old(self)@.len(),
                self.buf@.take(len as int) == old(self)@,
                self.buf@.subrange(len as int, len + i) == units@.take(i as int),
                self.type_length == old(self).type_length,
                self.max_length == old(self).max_length,
            decreases extra - i,
        {
            proof {
                use_type_invariant(&*self);
            }
            let ghost before = self.buf@;
            self.buf[len + i] = units[i];
            proof {
                assert(self.buf@.take(len as int) =~= before.take(len as int));
                assert(self.buf@.subrange(len as int, len + i + 1) =~= units@.take(i + 1));
            }
            i = i + 1;
        }
        self.type_length = header(EBUF, end);
        proof {
            assert(self.buf@.subrange(len as int, end as int) =~= units@);
            assert(self@ =~= old(self)@ + units@);
        }
        Ok(())
    }

    /// Appends `s` as UTF-16.
    ///
    /// Fails with `KErrOverflow` if it does not fit, leaving the buffer as it was: the
    /// text is measured before anything is written, so a failed append is not a partial
    /// one. Nothing is allocated.
    pub fn push_str(&mut self, s: &str) -> (r: Result<()>)
        ensures
            r is Ok <==> old(self)@.len() + utf16_of(s@).len() <= N,
            r is Ok ==> final(self)@ == old(self)@ + utf16_of(s@),
            r is Err ==> final(self)@ == old(self)@ && r == Err::<(), SymbianError>(error_of(
                ErrorKind::Overflow,
            )),
    {
        proof {
            use_type_invariant(&*self);
        }
        let len = self.length();
        let needed = super::utf16::utf16_len(s);
        if needed > N - len {
            return Err(SymbianError::of(ErrorKind::Overflow));
        }
        let end = len + needed;
        let ghost before = self.buf@;
        let written = {
            let (_, tail) = self.buf.split_at_mut(len);
            super::utf16::encode_utf16_into(s, tail)
        };
        match written {
            Ok(_) => {},
            Err(e) => {
                return Err(e);
            },
        }
        self.type_length = header(EBUF, end);
        proof {
            assert(self.buf@.take(len as int) =~= before.take(len as int));
            assert(self.buf@.subrange(len as int, end as int) =~= utf16_of(s@));
            assert(self@ =~= old(self)@ + utf16_of(s@));
        }
        Ok(())
    }

    /// Appends one character as UTF-16.
    pub fn push(&mut self, c: char) -> (r: Result<()>)
        ensures
            r is Ok <==> old(self)@.len() + char_utf16(c).len() <= N,
            r is Ok ==> final(self)@ == old(self)@ + char_utf16(c),
            r is Err ==> final(self)@ == old(self)@ && r == Err::<(), SymbianError>(error_of(
                ErrorKind::Overflow,
            )),
    {
        let v = c as u32;
        if v < 0x1_0000 {
            let one: [u16; 1] = [v as u16];
            assert(one@ =~= char_utf16(c));
            self.append_units(one.as_slice())
        } else {
            let w = v - 0x1_0000;
            let pair: [u16; 2] = [(0xD800 + w / 0x400) as u16, (0xDC00 + w % 0x400) as u16];
            assert(pair@ =~= char_utf16(c));
            self.append_units(pair.as_slice())
        }
    }

    /// Fills `out` with the buffer's text as UTF-8 and returns it. Nothing is allocated.
    pub fn to_str<'b>(&self, out: &'b mut [u8]) -> (r: Result<&'b str>)
        ensures
            final(out)@.len() == old(out)@.len(),
            match decode_into(self@, old(out)@.len() as int) {
                Ok(bytes) => {
                    &&& r is Ok
                    &&& Some(r->Ok_0@) == utf16_decode(self@)
                },
                Err(kind) => r == Err::<&str, SymbianError>(error_of(kind)),
            },
    {
        super::utf16::decode_utf16_into(self.units(), out)
    }
}

impl<const N: usize> Sealed for Buf16<N> {}

} // verus!
