//! `Buf16` as the fast `write!`'s native destination: text through
//! [`Buf16::push_str`], numbers as their decimal digits appended whole.
//!
//! Every method leaves the buffer as `core::write!` would, failures included, since
//! `write!`'s `fmt::Write` for `Buf16` is `push_str` and `write_char` its default.
use vstd::prelude::*;

use super::Buf16;
use super::utf16::{char_utf16, utf16_of};
use crate::error::{Result, SymbianError, error_of};
use crate::error_kind::ErrorKind;
use crate::fmt::decimal::{Decimal, all_digits, decimal_spec, lemma_decimal_len};
use crate::fmt::sink::{Sink, fmt_error, number_units, sign_left, signed_units};

verus! {

broadcast use crate::error::group_error;

/// The UTF-16 of ASCII digits.
fn digit_units(digits: &[u8]) -> (units: Vec<u16>)
    ensures
        units@ == digits@.map_values(|b: u8| b as u16),
{
    let mut units: Vec<u16> = Vec::new();
    let mut i: usize = 0;
    while i < digits.len()
        invariant
            i <= digits@.len(),
            units@ == digits@.take(i as int).map_values(|b: u8| b as u16),
        decreases digits@.len() - i,
    {
        units.push(digits[i] as u16);
        proof {
            assert(digits@.take(i + 1).map_values(|b: u8| b as u16) =~= digits@.take(
                i as int,
            ).map_values(|b: u8| b as u16).push(digits@[i as int] as u16));
        }
        i = i + 1;
    }
    assert(digits@.take(digits@.len() as int) =~= digits@);
    units
}

impl<const N: usize> Buf16<N> {
    /// Appends `value` as a sign and decimal digits, all of it or nothing:
    /// `KErrOverflow` when it does not fit.
    pub fn append_num(&mut self, value: i64) -> (r: Result<()>)
        ensures
            r is Ok <==> old(self)@.len() + signed_units(value).len() <= N,
            r is Ok ==> final(self)@ == old(self)@ + signed_units(value),
            r is Err ==> final(self)@ == old(self)@ && r == Err::<(), SymbianError>(error_of(
                ErrorKind::Overflow,
            )),
    {
        let negative = value < 0;
        let magnitude: u64 = if negative {
            (0 - value as i128) as u64
        } else {
            value as u64
        };
        let digits = Decimal::of_u64(magnitude);
        let mut units: Vec<u16> = Vec::new();
        if negative {
            units.push(0x2D);
        }
        let tail = digit_units(digits.digits());
        let mut i: usize = 0;
        let ghost head = units@;
        while i < tail.len()
            invariant
                i <= tail@.len(),
                units@ == head + tail@.take(i as int),
            decreases tail@.len() - i,
        {
            units.push(tail[i]);
            proof {
                assert(tail@.take(i + 1) =~= tail@.take(i as int).push(tail@[i as int]));
            }
            i = i + 1;
        }
        proof {
            assert(tail@.take(tail@.len() as int) =~= tail@);
            assert(units@ =~= signed_units(value));
        }
        self.append_units(units.as_slice())
    }
}

impl<const N: usize> Sink for Buf16<N> {
    open spec fn exact(&self) -> bool {
        true
    }

    open spec fn written(&self) -> Seq<u16> {
        self@
    }

    open spec fn takes(&self, units: Seq<u16>) -> bool {
        self@.len() + units.len() <= N
    }

    fn put_str(&mut self, s: &str) -> (r: core::fmt::Result)
        ensures
            r is Ok <==> old(self)@.len() + utf16_of(s@).len() <= N,
            r is Err ==> final(self)@ == old(self)@,
    {
        match self.push_str(s) {
            Ok(()) => Ok(()),
            Err(_) => Err(fmt_error()),
        }
    }

    /// Text known at compile time: its UTF-16 is copied, nothing is transcoded.
    fn put_utf16(&mut self, text: &str, units: &[u16]) -> (r: core::fmt::Result)
        ensures
            r is Ok <==> old(self)@.len() + units@.len() <= N,
            r is Err ==> final(self)@ == old(self)@,
    {
        match self.append_units(units) {
            Ok(()) => Ok(()),
            Err(_) => Err(fmt_error()),
        }
    }

    fn put_char(&mut self, c: char) -> (r: core::fmt::Result)
        ensures
            r is Ok <==> old(self)@.len() + char_utf16(c).len() <= N,
            r is Err ==> final(self)@ == old(self)@,
    {
        match self.push(c) {
            Ok(()) => Ok(()),
            Err(_) => Err(fmt_error()),
        }
    }

    fn put_u32(&mut self, magnitude: u32, negative: bool) -> (r: core::fmt::Result)
        ensures
            old(self)@.len() + number_units(negative, magnitude as nat).len() <= N ==> r is Ok,
    {
        let value = magnitude as i64;
        let signed = if negative {
            0 - value
        } else {
            value
        };
        assert(signed_units(signed) == number_units(negative, magnitude as nat));
        let r = self.put_i64(signed);
        assert(sign_left(old(self)@.len() + 1 <= N, negative) =~= (if signed < 0 && old(self)@.len() < N {
            seq![0x2Du16]
        } else {
            Seq::<u16>::empty()
        }));
        assert(old(self)@.push(0x2Du16) =~= old(self)@ + seq![0x2Du16]);
        assert(old(self)@ =~= old(self)@ + Seq::<u16>::empty());
        r
    }

    /// `core` writes the sign with its own `write_char` before the digits, so when the
    /// number does not fit, a `-` that does is left behind.
    fn put_i64(&mut self, value: i64) -> (r: core::fmt::Result)
        ensures
            old(self)@.len() + signed_units(value).len() <= N ==> r is Ok,
            old(self)@.len() + signed_units(value).len() > N ==> r is Err && final(self)@ == (if value
                < 0 && old(self)@.len() < N {
                old(self)@.push(0x2Du16)
            } else {
                old(self)@
            }),
    {
        proof {
            assert(old(self)@.push(0x2Du16) =~= old(self)@ + seq![0x2Du16]);
            assert(old(self)@ =~= old(self)@ + Seq::<u16>::empty());
        }
        if self.append_num(value).is_ok() {
            return Ok(());
        }
        if value < 0 {
            match self.push('-') {
                Ok(()) => {},
                Err(_) => {
                    return Err(fmt_error());
                },
            }
        }
        Err(fmt_error())
    }

    fn put_u64(&mut self, value: u64) -> (r: core::fmt::Result)
        ensures
            r is Ok <==> old(self)@.len() + number_units(false, value as nat).len() <= N,
            r is Err ==> final(self)@ == old(self)@,
    {
        let digits = Decimal::of_u64(value);
        let units = digit_units(digits.digits());
        proof {
            assert(units@ =~= number_units(false, value as nat));
        }
        match self.append_units(units.as_slice()) {
            Ok(()) => Ok(()),
            Err(_) => Err(fmt_error()),
        }
    }
}

/// `write!` into a `Buf16`: a buffer that runs out of room reports `fmt::Error`, as every
/// `core::fmt::Write` does; the `KErrOverflow` behind it is what [`Buf16::push_str`]
/// returns to a caller that wants the code.
impl<const N: usize> core::fmt::Write for Buf16<N> {
    fn write_str(&mut self, s: &str) -> (r: core::fmt::Result)
        ensures
            r is Ok <==> old(self)@.len() + utf16_of(s@).len() <= N,
            r is Ok ==> final(self)@ == old(self)@ + utf16_of(s@),
            r is Err ==> final(self)@ == old(self)@,
    {
        match self.push_str(s) {
            Ok(()) => Ok(()),
            Err(_) => Err(fmt_error()),
        }
    }
}

} // verus!
