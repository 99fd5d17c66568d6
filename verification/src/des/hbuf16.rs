//! `HBuf16`: an `HBufC16` — a header word and the code units, in storage of its own that
//! grows when a push needs it to.
use vstd::prelude::*;

use super::utf16::{decode_into, utf16_decode, utf16_of};
use super::{EBUFC, MAX_LENGTH, Sealed, header, header_kind, header_len, header_spec};
use crate::error::{Result, SymbianError, error_of};
use crate::error_kind::ErrorKind;

verus! {

broadcast use crate::error::group_error;

/// The header word in front of the code units: four bytes.
pub const HEADER: usize = 4;

/// The bytes one cell of `capacity` code units needs, when the capacity is one a
/// descriptor length can express.
pub open spec fn cell_size(capacity: int) -> int {
    HEADER + 2 * capacity
}

/// How far the storage grows for `extra` more units on a buffer holding `len` of
/// `capacity`: the capacity after, or `KErrTooBig` when it cannot grow that far. It
/// grows to what is needed or to double what it has, whichever is more.
pub open spec fn reserve_spec(len: int, capacity: int, extra: int) -> core::result::Result<
    int,
    ErrorKind,
> {
    let needed = len + extra;
    if needed > usize::MAX {
        Err(ErrorKind::TooBig)
    } else if needed <= capacity {
        Ok(capacity)
    } else {
        let doubled = if 2 * capacity > usize::MAX {
            usize::MAX as int
        } else {
            2 * capacity
        };
        let wanted = if needed >= doubled {
            needed
        } else {
            doubled
        };
        if wanted > MAX_LENGTH {
            Err(ErrorKind::TooBig)
        } else {
            Ok(wanted)
        }
    }
}

/// When the storage grows it grows enough: the new capacity holds what is needed, never
/// shrinks, stays a descriptor length, and is at least double the old one unless that
/// would pass what is needed by more than the length field allows.
pub proof fn law_reserve_room(len: int, capacity: int, extra: int)
    requires
        0 <= len <= capacity <= MAX_LENGTH,
        0 <= extra,
        reserve_spec(len, capacity, extra) is Ok,
    ensures
        ({
            let grown = reserve_spec(len, capacity, extra)->Ok_0;
            &&& grown >= len + extra
            &&& grown >= capacity
            &&& grown <= MAX_LENGTH
            &&& (grown == capacity || grown >= 2 * capacity)
        }),
{
}

/// When growing succeeds, and to what: a buffer that already has room keeps its
/// capacity; one that has not grows to what is needed or to double its capacity,
/// whichever is more, and that succeeds exactly when the result is a descriptor
/// length. An empty buffer (capacity 0) thus grows to exactly what is needed.
pub proof fn law_reserve_succeeds(len: int, capacity: int, extra: int)
    requires
        0 <= len <= capacity <= MAX_LENGTH,
        0 <= extra,
    ensures
        len + extra <= capacity ==> reserve_spec(len, capacity, extra) == Ok::<int, ErrorKind>(
            capacity,
        ),
        len + extra > capacity ==> ({
            let wanted = if len + extra >= 2 * capacity {
                len + extra
            } else {
                2 * capacity
            };
            &&& wanted <= MAX_LENGTH ==> reserve_spec(len, capacity, extra) == Ok::<
                int,
                ErrorKind,
            >(wanted)
            &&& wanted > MAX_LENGTH ==> reserve_spec(len, capacity, extra) == Err::<
                int,
                ErrorKind,
            >(ErrorKind::TooBig)
        }),
        capacity == 0 && 0 < extra <= MAX_LENGTH ==> reserve_spec(len, capacity, extra)
            == Ok::<int, ErrorKind>(extra),
{
}

/// A descriptor whose text lives in storage of its own, the shape of `HBufC16`: the
/// header word (`EBufC`, observed as `0x00000000` for an empty `HBufC16::New(8)`) and
/// room for `capacity` code units.
pub struct HBuf16 {
    type_length: u32,
    cell: Vec<u16>,
    capacity: usize,
}

impl View for HBuf16 {
    type V = Seq<u16>;

    /// The code units the buffer holds.
    closed spec fn view(&self) -> Seq<u16> {
        self.cell@.take(header_len(self.type_length) as int)
    }
}

impl HBuf16 {
    /// The header keeps the `EBufC` type and a length within the storage, which holds
    /// exactly `capacity` units.
    #[verifier::type_invariant]
    closed spec fn wf(self) -> bool {
        &&& self.capacity <= MAX_LENGTH
        &&& self.cell@.len() == self.capacity
        &&& header_kind(self.type_length) == EBUFC
        &&& header_len(self.type_length) <= self.capacity
    }

    /// The capacity, for contracts.
    pub closed spec fn spec_capacity(&self) -> usize {
        self.capacity
    }

    /// The bytes one cell of `capacity` code units needs, header included, or `None` when
    /// the capacity is beyond what a descriptor length can express.
    fn layout(capacity: usize) -> (r: Option<usize>)
        ensures
            r is Some <==> capacity <= MAX_LENGTH,
            r matches Some(n) ==> n == cell_size(capacity as int),
    {
        if capacity > MAX_LENGTH {
            return None;
        }
        Some(HEADER + capacity * 2)
    }

    /// A buffer with no storage at all: what stands in `self` while its storage is
    /// worked on.
    fn placeholder() -> (b: Self)
        ensures
            b@ == Seq::<u16>::empty(),
            b.spec_capacity() == 0,
    {
        let b = HBuf16 { type_length: header(EBUFC, 0), cell: Vec::new(), capacity: 0 };
        assert(b@ =~= Seq::<u16>::empty());
        b
    }

    /// An empty buffer with room for `capacity` code units.
    ///
    /// Fails with `KErrTooBig` for a capacity no descriptor could hold.
    pub fn with_capacity(capacity: usize) -> (r: Result<Self>)
        ensures
            r is Ok <==> capacity <= MAX_LENGTH,
            r matches Ok(b) ==> b@ == Seq::<u16>::empty() && b.spec_capacity() == capacity,
            r is Err ==> r == Err::<HBuf16, SymbianError>(error_of(ErrorKind::TooBig)),
    {
        match Self::layout(capacity) {
            Some(_) => {},
            None => {
                return Err(SymbianError::of(ErrorKind::TooBig));
            },
        }
        let cell: Vec<u16> = vec![0u16; capacity];
        let b = HBuf16 { type_length: header(EBUFC, 0), cell, capacity };
        assert(b@ =~= Seq::<u16>::empty());
        Ok(b)
    }

    /// A buffer holding `s`, sized to fit it exactly.
    pub fn from_str(s: &str) -> (r: Result<Self>)
        ensures
            r is Ok <==> utf16_of(s@).len() <= MAX_LENGTH,
            r matches Ok(b) ==> b@ == utf16_of(s@) && b.spec_capacity() == utf16_of(s@).len(),
            r is Err ==> r == Err::<HBuf16, SymbianError>(error_of(ErrorKind::TooBig)),
    {
        let mut buf = Self::with_capacity(super::utf16::utf16_len(s))?;
        match buf.push_str(s) {
            Ok(()) => {},
            Err(e) => {
                return Err(e);
            },
        }
        assert(buf@ =~= utf16_of(s@));
        Ok(buf)
    }

    /// The code units the cell can hold before it has to grow.
    pub fn capacity(&self) -> (n: usize)
        ensures
            n == self.spec_capacity(),
    {
        self.capacity
    }

    /// The header word, for a layout check.
    pub fn header_word(&self) -> (word: u32)
        ensures
            word == header_spec(EBUFC, self@.len()),
    {
        proof {
            use_type_invariant(self);
            super::lemma_header_word(self.type_length);
        }
        self.type_length
    }

    /// The number of code units held.
    pub fn length(&self) -> (n: usize)
        ensures
            n == self@.len(),
    {
        proof {
            use_type_invariant(self);
        }
        (self.type_length & MAX_LENGTH as u32) as usize
    }

    /// The code units the descriptor currently holds.
    pub fn units(&self) -> (units: &[u16])
        ensures
            units@ == self@,
    {
        let len = self.length();
        proof {
            use_type_invariant(self);
        }
        let all = self.cell.as_slice();
        &all[0..len]
    }

    /// Makes room for `extra` more code units, growing the storage if it has to.
    fn reserve(&mut self, extra: usize) -> (r: Result<()>)
        ensures
            final(self)@ == old(self)@,
            match reserve_spec(old(self)@.len() as int, old(self).spec_capacity() as int, extra as int) {
                Ok(capacity) => r is Ok && final(self).spec_capacity() == capacity,
                Err(kind) => r == Err::<(), SymbianError>(error_of(kind)) && final(self).spec_capacity()
                    == old(self).spec_capacity(),
            },
    {
        proof {
            use_type_invariant(&*self);
        }
        let len = self.length();
        if extra > usize::MAX - len {
            return Err(SymbianError::of(ErrorKind::TooBig));
        }
        let needed = len + extra;
        if needed <= self.capacity {
            return Ok(());
        }
        let doubled = if self.capacity > usize::MAX / 2 {
            usize::MAX
        } else {
            self.capacity * 2
        };
        let wanted = if needed >= doubled {
            needed
        } else {
            doubled
        };
        match Self::layout(self.capacity) {
            Some(_) => {},
            None => {
                return Err(SymbianError::of(ErrorKind::TooBig));
            },
        }
        match Self::layout(wanted) {
            Some(_) => {},
            None => {
                return Err(SymbianError::of(ErrorKind::TooBig));
            },
        }
        let mut taken = Self::placeholder();
        core::mem::swap(self, &mut taken);
        proof {
            use_type_invariant(&taken);
        }
        let HBuf16 { type_length, cell, capacity: _ } = taken;
        let mut grown = cell;
        let ghost before = grown@;
        grown.resize(wanted, 0u16);
        proof {
            assert(grown@.take(len as int) =~= before.take(len as int));
        }
        *self = HBuf16 { type_length, cell: grown, capacity: wanted };
        assert(self@ =~= old(self)@);
        Ok(())
    }

    /// Appends `s` as UTF-16, growing the storage if it does not fit.
    ///
    /// Fails with `KErrTooBig` when the storage cannot grow that far, leaving the buffer
    /// as it was.
    pub fn push_str(&mut self, s: &str) -> (r: Result<()>)
        ensures
            match reserve_spec(
                old(self)@.len() as int,
                old(self).spec_capacity() as int,
                utf16_of(s@).len() as int,
            ) {
                Ok(capacity) => {
                    &&& r is Ok
                    &&& final(self)@ == old(self)@ + utf16_of(s@)
                    &&& final(self).spec_capacity() == capacity
                },
                Err(kind) => {
                    &&& r == Err::<(), SymbianError>(error_of(kind))
                    &&& final(self)@ == old(self)@
                    &&& final(self).spec_capacity() == old(self).spec_capacity()
                },
            },
    {
        let extra = super::utf16::utf16_len(s);
        match self.reserve(extra) {
            Ok(()) => {},
            Err(e) => {
                return Err(e);
            },
        }
        proof {
            use_type_invariant(&*self);
        }
        let len = self.length();
        let end = len + extra;
        let mut taken = Self::placeholder();
        core::mem::swap(self, &mut taken);
        proof {
            use_type_invariant(&taken);
        }
        let HBuf16 { type_length, cell, capacity } = taken;
        let mut cell = cell;
        let ghost before = cell@;
        let written = {
            let (_, tail) = cell.as_mut_slice().split_at_mut(len);
            super::utf16::encode_utf16_into(s, tail)
        };
        match written {
            Ok(_) => {},
            Err(e) => {
                proof {
                    assert(false);
                }
                *self = HBuf16 { type_length, cell, capacity };
                return Err(e);
            },
        }
        *self = HBuf16 { type_length: header(EBUFC, end), cell, capacity };
        proof {
            assert(self.cell@.take(len as int) =~= before.take(len as int));
            assert(self.cell@.subrange(len as int, end as int) =~= utf16_of(s@));
            assert(self@ =~= old(self)@ + utf16_of(s@));
        }
        Ok(())
    }

    /// Fills `out` with the buffer's text as UTF-8 and returns it. Nothing is allocated.
    pub fn to_str<'b>(&self, out: &'b mut [u8]) -> (r: Result<&'b str>)
        ensures
            final(out)@.len() == old(out)@.len(),
            match decode_into(self@, old(out)@.len() as int) {
                Ok(bytes) => {
                    &&& r is Ok
                    &&& Some(r->Ok_0@) == utf16_decode(self@)
                },
                Err(kind) => r == Err::<&str, SymbianError>(error_of(kind)),
            },
    {
        super::utf16::decode_utf16_into(self.units(), out)
    }
}

impl Sealed for HBuf16 {}

/// `write!` into an `HBuf16`: the storage grows as it needs to, and a buffer that cannot
/// grow that far reports `fmt::Error`, leaving its text as it was.
impl core::fmt::Write for HBuf16 {
    fn write_str(&mut self, s: &str) -> (r: core::fmt::Result)
        ensures
            r is Ok <==> reserve_spec(
                old(self)@.len() as int,
                old(self).spec_capacity() as int,
                utf16_of(s@).len() as int,
            ) is Ok,
            r is Ok ==> final(self)@ == old(self)@ + utf16_of(s@),
            r is Err ==> final(self)@ == old(self)@ && final(self).spec_capacity() == old(
                self,
            ).spec_capacity(),
    {
        match self.push_str(s) {
            Ok(()) => Ok(()),
            Err(_) => Err(crate::fmt::sink::fmt_error()),
        }
    }
}

} // verus!
