//! Where a fast piece goes: a destination that appends text and numbers itself, without
//! `core::fmt`.
use vstd::prelude::*;

use super::decimal::decimal_spec;
use crate::des::utf16::{char_utf16, utf16_of};

verus! {

#[verifier::external_type_specification]
#[verifier::external_body]
pub struct ExFmtError(core::fmt::Error);

/// `core::fmt::Error`, the one value a formatting failure carries.
#[verifier::external_body]
pub(crate) fn fmt_error() -> core::fmt::Error {
    core::fmt::Error
}

/// The UTF-16 of an integer's flag-less `Display`: a `-` when it is negative, then the
/// decimal digits of its magnitude.
pub open spec fn number_units(negative: bool, magnitude: nat) -> Seq<u16> {
    let sign = if negative {
        seq![0x2Du16]
    } else {
        Seq::<u16>::empty()
    };
    sign + decimal_spec(magnitude).map_values(|b: u8| b as u16)
}

/// The UTF-16 of an `i64`'s flag-less `Display`.
pub open spec fn signed_units(value: i64) -> Seq<u16> {
    if value < 0 {
        number_units(true, (-value) as nat)
    } else {
        number_units(false, value as nat)
    }
}

/// A destination that appends text and numbers itself.
///
/// Its contents are modelled as the UTF-16 it has been given, for a sink that is `exact`:
/// on one of those, a call that succeeds has appended exactly its text. Every sink in
/// this library is exact. A sink implemented outside verified code keeps the defaults,
/// is not exact, and nothing is claimed of what it holds.
pub trait Sink {
    /// Whether [`Sink::written`] is what this sink holds.
    open spec fn exact(&self) -> bool {
        false
    }

    /// The text written so far, as UTF-16.
    open spec fn written(&self) -> Seq<u16> {
        Seq::empty()
    }

    /// Whether this sink, as it stands, takes `units` appended in one write.
    open spec fn takes(&self, units: Seq<u16>) -> bool {
        false
    }

    /// `write_str(s)`: appended whole, or nothing written.
    fn put_str(&mut self, s: &str) -> (r: core::fmt::Result)
        ensures
            final(self).exact() == old(self).exact(),
            old(self).exact() ==> (r is Ok <==> old(self).takes(utf16_of(s@))),
            old(self).exact() && r is Ok ==> final(self).written() == old(self).written()
                + utf16_of(s@),
            old(self).exact() && r is Err ==> final(self).written() == old(self).written(),
    ;

    /// Text known at compile time, with its UTF-16 already computed.
    fn put_utf16(&mut self, text: &str, units: &[u16]) -> (r: core::fmt::Result)
        requires
            units@ == utf16_of(text@),
        ensures
            final(self).exact() == old(self).exact(),
            old(self).exact() ==> (r is Ok <==> old(self).takes(units@)),
            old(self).exact() && r is Ok ==> final(self).written() == old(self).written()
                + units@,
            old(self).exact() && r is Err ==> final(self).written() == old(self).written(),
    ;

    /// `write_char(c)`: appended whole, or nothing written.
    fn put_char(&mut self, c: char) -> (r: core::fmt::Result)
        ensures
            final(self).exact() == old(self).exact(),
            old(self).exact() ==> (r is Ok <==> old(self).takes(char_utf16(c))),
            old(self).exact() && r is Ok ==> final(self).written() == old(self).written()
                + char_utf16(c),
            old(self).exact() && r is Err ==> final(self).written() == old(self).written(),
    ;

    /// An integer's `Display` with no flags, for an integer whose magnitude fits a
    /// `u32`: a sign when negative, then the digits. A negative integer has a magnitude.
    /// As `core` writes the sign on its own before the digits, a number that does not fit
    /// leaves behind a `-` that does.
    fn put_u32(&mut self, magnitude: u32, negative: bool) -> (r: core::fmt::Result)
        requires
            negative ==> magnitude > 0,
        ensures
            final(self).exact() == old(self).exact(),
            old(self).exact() ==> (r is Ok <==> old(self).takes(
                number_units(negative, magnitude as nat),
            )),
            old(self).exact() && r is Ok ==> final(self).written() == old(self).written()
                + number_units(negative, magnitude as nat),
            old(self).exact() && r is Err ==> final(self).written() == old(self).written()
                + sign_left(old(self).takes(seq![0x2Du16]), negative),
    ;

    /// As [`Sink::put_u32`], for an `i64` whose magnitude does not fit a `u32`.
    fn put_i64(&mut self, value: i64) -> (r: core::fmt::Result)
        ensures
            final(self).exact() == old(self).exact(),
            old(self).exact() ==> (r is Ok <==> old(self).takes(signed_units(value))),
            old(self).exact() && r is Ok ==> final(self).written() == old(self).written()
                + signed_units(value),
            old(self).exact() && r is Err ==> final(self).written() == old(self).written()
                + sign_left(old(self).takes(seq![0x2Du16]), value < 0),
    ;

    /// A `u64` above `i64::MAX`, which [`Sink::put_i64`] cannot take.
    fn put_u64(&mut self, value: u64) -> (r: core::fmt::Result)
        ensures
            final(self).exact() == old(self).exact(),
            old(self).exact() ==> (r is Ok <==> old(self).takes(number_units(false, value as nat))),
            old(self).exact() && r is Ok ==> final(self).written() == old(self).written()
                + number_units(false, value as nat),
            old(self).exact() && r is Err ==> final(self).written() == old(self).written(),
    ;
}

/// What a number that did not fit leaves behind: its `-`, when it is negative and the
/// sink took the sign.
pub open spec fn sign_left(sign_taken: bool, negative: bool) -> Seq<u16> {
    if negative && sign_taken {
        seq![0x2Du16]
    } else {
        Seq::empty()
    }
}

} // verus!
