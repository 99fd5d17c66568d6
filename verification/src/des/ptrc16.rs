//! `PtrC16`: a borrowed `TPtrC16` over code units that live somewhere else.
use vstd::prelude::*;

use super::{EPTRC, MAX_LENGTH, Sealed, header, header_spec};
use crate::error::{Result, SymbianError, error_of};
use crate::error_kind::ErrorKind;

verus! {

broadcast use crate::error::group_error;

/// A non-owning descriptor over an existing `[u16]`, the shape of `TPtrC16`: the header
/// word (`0x1xxxxxxx`, `EPtrC`) and the code units it points at.
pub struct PtrC16<'a> {
    type_length: u32,
    units: &'a [u16],
}

impl<'a> View for PtrC16<'a> {
    type V = Seq<u16>;

    closed spec fn view(&self) -> Seq<u16> {
        self.units@
    }
}

impl<'a> PtrC16<'a> {
    /// The header always describes the units pointed at.
    #[verifier::type_invariant]
    closed spec fn wf(self) -> bool {
        &&& self.units@.len() <= MAX_LENGTH
        &&& self.type_length == header_spec(EPTRC, self.units@.len())
    }

    /// Points at `units` for as long as they live.
    ///
    /// Fails with `KErrTooBig` for more units than the 28-bit length field can hold.
    pub fn new(units: &'a [u16]) -> (r: Result<Self>)
        ensures
            r is Ok <==> units@.len() <= MAX_LENGTH,
            r matches Ok(p) ==> p@ == units@,
            r is Err ==> r == Err::<PtrC16, SymbianError>(error_of(ErrorKind::TooBig)),
    {
        if units.len() > MAX_LENGTH {
            return Err(SymbianError::of(ErrorKind::TooBig));
        }
        Ok(PtrC16 { type_length: header(EPTRC, units.len()), units })
    }

    /// The header word, for a layout check.
    pub fn header_word(&self) -> (word: u32)
        ensures
            word == header_spec(EPTRC, self@.len()),
    {
        proof {
            use_type_invariant(self);
        }
        self.type_length
    }

    /// The code units the descriptor holds.
    pub fn units(&self) -> (units: &'a [u16])
        ensures
            units@ == self@,
    {
        self.units
    }
}

impl<'a> Sealed for PtrC16<'a> {}

} // verus!
