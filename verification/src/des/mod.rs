//! The 16-bit descriptor family, with the layout observed on the device's own euser.
//!
//! `e32des16.h` says a descriptor begins with one `TUint` whose top nibble is the type
//! (`KShiftDesType16 = 28`) and whose low 28 bits are the length (`KMaskDesLength16`).
//! The type nibbles were read off live objects on the device:
//!
//! | object | header word | type |
//! |---|---|---|
//! | `_LIT16("abc")` | `0x00000003` | `EBufC` = 0 |
//! | `TPtrC16("abcd")` | `0x10000004` | `EPtrC` = 1 |
//! | `TPtr16(p, 3, 8)` | `0x20000003` | `EPtr` = 2 |
//! | `TBuf16<8>("abc")` | `0x30000003` | `EBuf` = 3 |
//! | `HBufC16::New(8)` | `0x00000000` | `EBufC` = 0 |
use vstd::prelude::*;

pub mod buf16;
pub mod buf16_sink;
pub mod hbuf16;
pub mod lit16;
pub mod ptrc16;
pub mod utf16;

pub use buf16::Buf16;
pub use hbuf16::HBuf16;
pub use lit16::{Lit16, lit};
pub use ptrc16::PtrC16;
pub use utf16::{decode_utf16_into, encode_utf16_into, utf16_len};

verus! {

/// `KShiftDesType16` (`e32des16.h`).
pub const TYPE_SHIFT: u32 = 28;

/// `KMaskDesLength16` (`e32des16.h`): the greatest length a descriptor can hold.
pub const MAX_LENGTH: usize = 0x0fff_ffff;

/// Observed descriptor types.
pub const EBUFC: u32 = 0;

/// `EPtrC`, the type of a `TPtrC16`.
pub const EPTRC: u32 = 1;

/// `EBuf`, the type of a `TBuf16`.
pub const EBUF: u32 = 3;

/// A header word is its type and its length put back together.
pub proof fn lemma_header_word(word: u32)
    ensures
        word == header_spec(header_kind(word), header_len(word)),
{
    assert(word == ((word >> 28) * 0x1000_0000 + (word & 0x0fff_ffff)) as u32) by (bit_vector);
}

/// The header word of a descriptor of `kind` holding `len` code units: the type in the
/// top nibble, the length in the low 28 bits.
pub open spec fn header_spec(kind: u32, len: nat) -> u32 {
    (kind * 0x1000_0000 + len) as u32
}

/// The type a header word names.
pub open spec fn header_kind(word: u32) -> u32 {
    word >> 28
}

/// The length a header word holds.
pub open spec fn header_len(word: u32) -> nat {
    (word & 0x0fff_ffff) as nat
}

/// A header word takes apart into the type and the length it was made of.
pub proof fn lemma_header_fields(kind: u32, len: u32)
    requires
        kind < 16,
        len <= 0x0fff_ffff,
    ensures
        (kind << 28) | len == header_spec(kind, len as nat),
        header_kind(header_spec(kind, len as nat)) == kind,
        header_len(header_spec(kind, len as nat)) == len,
{
    assert((kind << 28) | len == kind * 0x1000_0000 + len) by (bit_vector)
        requires
            kind < 16,
            len <= 0x0fff_ffff,
    ;
    assert(((kind << 28) | len) >> 28 == kind) by (bit_vector)
        requires
            kind < 16,
            len <= 0x0fff_ffff,
    ;
    assert(((kind << 28) | len) & 0x0fff_ffff == len) by (bit_vector)
        requires
            kind < 16,
            len <= 0x0fff_ffff,
    ;
}

/// The header word of a descriptor of `kind` holding `len` code units.
pub fn header(kind: u32, len: usize) -> (word: u32)
    requires
        kind < 16,
        len <= MAX_LENGTH,
    ensures
        word == header_spec(kind, len as nat),
        header_kind(word) == kind,
        header_len(word) == len,
{
    proof {
        lemma_header_fields(kind, len as u32);
    }
    (kind << TYPE_SHIFT) | (len as u32)
}

/// The descriptor types are sealed: an implementor must have one of the binary layouts
/// observed on the device, which only this crate provides.
pub trait Sealed {}

} // verus!
