//! `Lit16<N>`: the shape of a `_LIT16`, a length word with type nibble 0 (`EBufC`) and
//! then the UTF-16 code units, which euser reads as `const TDesC16&`.
use vstd::prelude::*;

verus! {

/// A constant `_LIT16` of `N` code units.
pub struct Lit16<const N: usize> {
    type_length: u32,
    buf: [u16; N],
}

impl<const N: usize> Lit16<N> {
    /// The length word, for contracts.
    pub closed spec fn spec_type_length(&self) -> u32 {
        self.type_length
    }

    /// The code units, for contracts.
    pub closed spec fn spec_units(&self) -> Seq<u16> {
        self.buf@
    }

    /// The length word euser reads first: the length, with type `EBufC` (0).
    pub fn type_length(&self) -> (word: u32)
        ensures
            word == self.spec_type_length(),
    {
        self.type_length
    }

    /// The code units.
    pub fn units(&self) -> (units: &[u16])
        ensures
            units@ == self.spec_units(),
    {
        self.buf.as_slice()
    }
}

/// The `_LIT16` of an ASCII byte string: each byte widened to one code unit, and `N` as
/// the length word.
pub fn lit<const N: usize>(s: &[u8; N]) -> (l: Lit16<N>)
    requires
        N <= u32::MAX,
    ensures
        l.spec_type_length() == N,
        l.spec_units() == s@.map_values(|b: u8| b as u16),
{
    let mut buf = [0u16; N];
    let mut i: usize = 0;
    while i < N
        invariant
            i <= N,
            buf@.len() == N,
            s@.len() == N,
            forall|j: int| 0 <= j < i ==> buf@[j] == s@[j] as u16,
        decreases N - i,
    {
        buf[i] = s[i] as u16;
        i = i + 1;
    }
    assert(buf@ =~= s@.map_values(|b: u8| b as u16));
    Lit16 { type_length: N as u32, buf }
}

} // verus!
