//! The argument types a plain `{}` appends directly: `str`, `String`, `char` and the integers up
//! to 64 bits. Each writes exactly what its `Display` writes with no flags, through the
//! sink call that fits its magnitude.
use vstd::prelude::*;

use super::sink::{Sink, number_units, sign_left, signed_units};
use crate::des::utf16::{char_utf16, utf16_of};

verus! {

/// A type whose flag-less `Display` a [`Sink`] can reproduce.
pub trait Arg {
    /// The UTF-16 of the value's flag-less `Display`.
    spec fn display_units(&self) -> Seq<u16>;

    /// Whether the value is a negative number, whose sign `core` writes on its own.
    spec fn is_negative(&self) -> bool;

    /// Appends the value's `Display` in the one sink call that fits it: it succeeds
    /// exactly when the sink takes the whole text, and a failure leaves nothing behind
    /// but the `-` of a negative number when the sink took that.
    fn put<S: Sink + ?Sized>(&self, sink: &mut S) -> (r: core::fmt::Result)
        ensures
            final(sink).exact() == old(sink).exact(),
            old(sink).exact() ==> (r is Ok <==> old(sink).takes(self.display_units())),
            old(sink).exact() && r is Ok ==> final(sink).written() == old(sink).written()
                + self.display_units(),
            old(sink).exact() && r is Err ==> final(sink).written() == old(sink).written()
                + sign_left(old(sink).takes(seq![0x2Du16]), self.is_negative()),
    ;
}

impl Arg for str {
    open spec fn display_units(&self) -> Seq<u16> {
        utf16_of(self@)
    }

    open spec fn is_negative(&self) -> bool {
        false
    }

    fn put<S: Sink + ?Sized>(&self, sink: &mut S) -> (r: core::fmt::Result) {
        sink.put_str(self)
    }
}

impl Arg for String {
    open spec fn display_units(&self) -> Seq<u16> {
        utf16_of(self@)
    }

    open spec fn is_negative(&self) -> bool {
        false
    }

    fn put<S: Sink + ?Sized>(&self, sink: &mut S) -> (r: core::fmt::Result) {
        sink.put_str(self.as_str())
    }
}

impl Arg for char {
    open spec fn display_units(&self) -> Seq<u16> {
        char_utf16(*self)
    }

    open spec fn is_negative(&self) -> bool {
        false
    }

    fn put<S: Sink + ?Sized>(&self, sink: &mut S) -> (r: core::fmt::Result) {
        sink.put_char(*self)
    }
}

/// `Display for &T` forwards to `T`, so this does too.
impl<'a, T: Arg + ?Sized> Arg for &'a T {
    open spec fn display_units(&self) -> Seq<u16> {
        (**self).display_units()
    }

    open spec fn is_negative(&self) -> bool {
        (**self).is_negative()
    }

    fn put<S: Sink + ?Sized>(&self, sink: &mut S) -> (r: core::fmt::Result) {
        (**self).put(sink)
    }
}

/// `Display for &mut T` forwards to `T` as well.
impl<'a, T: Arg + ?Sized> Arg for &'a mut T {
    open spec fn display_units(&self) -> Seq<u16> {
        (**self).display_units()
    }

    open spec fn is_negative(&self) -> bool {
        (**self).is_negative()
    }

    fn put<S: Sink + ?Sized>(&self, sink: &mut S) -> (r: core::fmt::Result) {
        (**self).put(sink)
    }
}

/// A signed integer's `Display`.
pub open spec fn signed_display(v: int) -> Seq<u16> {
    if v < 0 {
        number_units(true, (-v) as nat)
    } else {
        number_units(false, v as nat)
    }
}

impl Arg for i8 {
    open spec fn display_units(&self) -> Seq<u16> {
        signed_display(*self as int)
    }

    open spec fn is_negative(&self) -> bool {
        *self < 0
    }

    fn put<S: Sink + ?Sized>(&self, sink: &mut S) -> (r: core::fmt::Result) {
        let v = *self as i32;
        let magnitude = if v < 0 {
            (0 - v) as u32
        } else {
            v as u32
        };
        sink.put_u32(magnitude, v < 0)
    }
}

impl Arg for i16 {
    open spec fn display_units(&self) -> Seq<u16> {
        signed_display(*self as int)
    }

    open spec fn is_negative(&self) -> bool {
        *self < 0
    }

    fn put<S: Sink + ?Sized>(&self, sink: &mut S) -> (r: core::fmt::Result) {
        let v = *self as i32;
        let magnitude = if v < 0 {
            (0 - v) as u32
        } else {
            v as u32
        };
        sink.put_u32(magnitude, v < 0)
    }
}

impl Arg for i32 {
    open spec fn display_units(&self) -> Seq<u16> {
        signed_display(*self as int)
    }

    open spec fn is_negative(&self) -> bool {
        *self < 0
    }

    fn put<S: Sink + ?Sized>(&self, sink: &mut S) -> (r: core::fmt::Result) {
        let v = *self as i64;
        let magnitude = if v < 0 {
            (0 - v) as u32
        } else {
            v as u32
        };
        sink.put_u32(magnitude, v < 0)
    }
}

impl Arg for u8 {
    open spec fn display_units(&self) -> Seq<u16> {
        number_units(false, *self as nat)
    }

    open spec fn is_negative(&self) -> bool {
        false
    }

    fn put<S: Sink + ?Sized>(&self, sink: &mut S) -> (r: core::fmt::Result) {
        sink.put_u32(*self as u32, false)
    }
}

impl Arg for u16 {
    open spec fn display_units(&self) -> Seq<u16> {
        number_units(false, *self as nat)
    }

    open spec fn is_negative(&self) -> bool {
        false
    }

    fn put<S: Sink + ?Sized>(&self, sink: &mut S) -> (r: core::fmt::Result) {
        sink.put_u32(*self as u32, false)
    }
}

impl Arg for u32 {
    open spec fn display_units(&self) -> Seq<u16> {
        number_units(false, *self as nat)
    }

    open spec fn is_negative(&self) -> bool {
        false
    }

    fn put<S: Sink + ?Sized>(&self, sink: &mut S) -> (r: core::fmt::Result) {
        sink.put_u32(*self, false)
    }
}

/// A 64-bit value whose magnitude fits a `u32` still takes [`Sink::put_u32`].
fn put_wide_signed<S: Sink + ?Sized>(value: i64, sink: &mut S) -> (r: core::fmt::Result)
    ensures
        final(sink).exact() == old(sink).exact(),
        old(sink).exact() ==> (r is Ok <==> old(sink).takes(signed_display(value as int))),
        old(sink).exact() && r is Ok ==> final(sink).written() == old(sink).written()
            + signed_display(value as int),
        old(sink).exact() && r is Err ==> final(sink).written() == old(sink).written()
            + sign_left(old(sink).takes(seq![0x2Du16]), value < 0),
{
    let magnitude: u64 = if value < 0 {
        (0 - value as i128) as u64
    } else {
        value as u64
    };
    if magnitude <= u32::MAX as u64 {
        sink.put_u32(magnitude as u32, value < 0)
    } else {
        sink.put_i64(value)
    }
}

/// A value that fits a `u32` takes [`Sink::put_u32`], one that fits an `i64` takes
/// [`Sink::put_i64`], and only the rest takes [`Sink::put_u64`].
fn put_wide_unsigned<S: Sink + ?Sized>(value: u64, sink: &mut S) -> (r: core::fmt::Result)
    ensures
        final(sink).exact() == old(sink).exact(),
        old(sink).exact() ==> (r is Ok <==> old(sink).takes(number_units(false, value as nat))),
        old(sink).exact() && r is Ok ==> final(sink).written() == old(sink).written()
            + number_units(false, value as nat),
        old(sink).exact() && r is Err ==> final(sink).written() == old(sink).written(),
{
    if value <= u32::MAX as u64 {
        return sink.put_u32(value as u32, false);
    }
    if value <= i64::MAX as u64 {
        sink.put_i64(value as i64)
    } else {
        sink.put_u64(value)
    }
}

impl Arg for i64 {
    open spec fn display_units(&self) -> Seq<u16> {
        signed_display(*self as int)
    }

    open spec fn is_negative(&self) -> bool {
        *self < 0
    }

    fn put<S: Sink + ?Sized>(&self, sink: &mut S) -> (r: core::fmt::Result) {
        put_wide_signed(*self, sink)
    }
}

impl Arg for isize {
    open spec fn display_units(&self) -> Seq<u16> {
        signed_display(*self as int)
    }

    open spec fn is_negative(&self) -> bool {
        *self < 0
    }

    fn put<S: Sink + ?Sized>(&self, sink: &mut S) -> (r: core::fmt::Result) {
        put_wide_signed(*self as i64, sink)
    }
}

impl Arg for u64 {
    open spec fn display_units(&self) -> Seq<u16> {
        number_units(false, *self as nat)
    }

    open spec fn is_negative(&self) -> bool {
        false
    }

    fn put<S: Sink + ?Sized>(&self, sink: &mut S) -> (r: core::fmt::Result) {
        put_wide_unsigned(*self, sink)
    }
}

impl Arg for usize {
    open spec fn display_units(&self) -> Seq<u16> {
        number_units(false, *self as nat)
    }

    open spec fn is_negative(&self) -> bool {
        false
    }

    fn put<S: Sink + ?Sized>(&self, sink: &mut S) -> (r: core::fmt::Result) {
        put_wide_unsigned(*self as u64, sink)
    }
}

} // verus!
