//! `Text`: one string read out of the strings file, in a heap cell of its own.
use vstd::prelude::*;
use vstd::string::StringSliceAdditionalSpecFns;
use vstd::utf8::valid_utf8;

use super::heap_bytes::HeapBytes;
use crate::des::utf16::utf8_str;
use crate::error::{Result, SymbianError, error_of};
use crate::error_kind::ErrorKind;

verus! {

broadcast use crate::error::group_error;

/// A string read from the strings file: its UTF-8 bytes, checked once when read.
pub struct Text {
    bytes: HeapBytes,
}

impl View for Text {
    type V = Seq<u8>;

    /// The UTF-8 bytes of the string.
    closed spec fn view(&self) -> Seq<u8> {
        self.bytes@
    }
}

impl Text {
    /// The text holds well-formed UTF-8.
    #[verifier::type_invariant]
    closed spec fn wf(self) -> bool {
        valid_utf8(self.bytes@)
    }

    /// The resource's bytes, if they are UTF-8; `KErrCorrupt` otherwise.
    pub fn new(bytes: HeapBytes) -> (r: Result<Self>)
        ensures
            r is Ok <==> valid_utf8(bytes@),
            r matches Ok(t) ==> t@ == bytes@,
            r is Err ==> r == Err::<Text, SymbianError>(error_of(ErrorKind::Corrupt)),
    {
        match utf8_str(bytes.as_bytes()) {
            Some(_) => Ok(Text { bytes }),
            None => Err(SymbianError::of(ErrorKind::Corrupt)),
        }
    }

    /// The string.
    pub fn as_str(&self) -> (s: &str)
        ensures
            s.spec_bytes() == self@,
    {
        proof {
            use_type_invariant(self);
        }
        match utf8_str(self.bytes.as_bytes()) {
            Some(s) => s,
            None => {
                proof {
                    assert(false);
                }
                ""
            },
        }
    }
}

} // verus!
