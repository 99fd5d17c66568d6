//! An integer's decimal digits, with no 64-bit division routine and no UTF-8 check.
//!
//! A value that fits a `u32` is converted with one loop dividing by the constant 10;
//! only a larger one takes [`Decimal::of_u64`], which divides in 16-bit limbs: each step
//! divides a number below `10 << 16`, a `u32`, by 10.
use vstd::prelude::*;
use vstd::arithmetic::div_mod::lemma_fundamental_div_mod_converse;
use vstd::string::StringSliceAdditionalSpecFns;
use vstd::utf8::*;

use crate::des::utf16::utf8_str;

verus! {

/// The ASCII digit for `d`.
pub open spec fn digit(d: nat) -> u8 {
    (0x30 + d) as u8
}

/// The decimal digits of `v`, most significant first, with no leading zeros (`0` is
/// `"0"`).
pub open spec fn decimal_spec(v: nat) -> Seq<u8>
    decreases v,
{
    if v < 10 {
        seq![digit(v)]
    } else {
        decimal_spec(v / 10).push(digit(v % 10))
    }
}

/// Whether every byte is an ASCII digit.
pub open spec fn all_digits(s: Seq<u8>) -> bool {
    forall|i: int| 0 <= i < s.len() ==> 0x30 <= #[trigger] s[i] <= 0x39
}

/// `10^k`.
pub open spec fn pow10(k: nat) -> nat
    decreases k,
{
    if k == 0 {
        1
    } else {
        10 * pow10((k - 1) as nat)
    }
}

/// A number below `10^k` has at most `k` digits.
proof fn lemma_decimal_digits(v: nat, k: nat)
    requires
        k >= 1,
        v < pow10(k),
    ensures
        decimal_spec(v).len() <= k,
    decreases v,
{
    if v >= 10 {
        if k == 1 {
            assert(pow10(1) == 10 * pow10(0));
        }
        assert(pow10(k) == 10 * pow10((k - 1) as nat));
        lemma_decimal_digits(v / 10, (k - 1) as nat);
    }
}

/// A number has at most 20 digits below `2^64`, at most 10 below `2^32`, and all of
/// them are ASCII digits.
pub proof fn lemma_decimal_len(v: nat)
    ensures
        1 <= decimal_spec(v).len(),
        v < 0x1_0000_0000 ==> decimal_spec(v).len() <= 10,
        v <= u64::MAX ==> decimal_spec(v).len() <= 20,
        all_digits(decimal_spec(v)),
        (v < 10 <==> decimal_spec(v).len() == 1),
    decreases v,
{
    reveal_with_fuel(pow10, 21);
    assert(pow10(10) == 10_000_000_000);
    assert(pow10(20) == 100_000_000_000_000_000_000);
    if v < 0x1_0000_0000 {
        lemma_decimal_digits(v, 10);
    }
    if v <= u64::MAX {
        lemma_decimal_digits(v, 20);
    }
    if v >= 10 {
        lemma_decimal_len(v / 10);
    }
}

/// ASCII is well-formed UTF-8.
pub proof fn lemma_ascii_valid_utf8(bytes: Seq<u8>)
    requires
        forall|i: int| 0 <= i < bytes.len() ==> #[trigger] bytes[i] < 0x80,
    ensures
        valid_utf8(bytes),
    decreases bytes.len(),
{
    if bytes.len() > 0 {
        let b = bytes[0];
        assert(b < 0x80);
        assert((b & 0x7F) as u32 == b as u32) by (bit_vector)
            requires
                b < 0x80,
        ;
        assert(pop_first_scalar(bytes) =~= bytes.subrange(1, bytes.len() as int));
        lemma_ascii_valid_utf8(bytes.subrange(1, bytes.len() as int));
    }
}

/// One step of long division by ten in base `2^16`: the quotient and remainder of
/// `p * 65536 + limb` from those of `p`.
proof fn lemma_limb_step(p: nat, limb: nat)
    requires
        limb < 65536,
    ensures
        (p * 65536 + limb) / 10 == (p / 10) * 65536 + ((p % 10) * 65536 + limb) / 10,
        (p * 65536 + limb) % 10 == ((p % 10) * 65536 + limb) % 10,
{
    let q = p / 10;
    let r = p % 10;
    let m = r * 65536 + limb;
    assert(p == q * 10 + r);
    assert(m == (m / 10) * 10 + m % 10);
    assert(0 <= m % 10 < 10);
    assert(p * 65536 + limb == (q * 65536 + m / 10) * 10 + m % 10) by (nonlinear_arith)
        requires
            p == q * 10 + r,
            m == r * 65536 + limb,
            m == (m / 10) * 10 + m % 10,
    ;
    lemma_fundamental_div_mod_converse((p * 65536 + limb) as int, 10, (q * 65536 + m / 10) as int, (m % 10) as int);
}

/// A number's decimal digits: up to 20, `u64::MAX`'s count.
pub struct Decimal {
    digits: [u8; 20],
    start: usize,
}

impl View for Decimal {
    type V = Seq<u8>;

    /// The digits written so far.
    closed spec fn view(&self) -> Seq<u8> {
        self.digits@.skip(self.start as int)
    }
}

impl Decimal {
    /// Every byte from `start` on is an ASCII digit.
    #[verifier::type_invariant]
    closed spec fn wf(self) -> bool {
        &&& self.start <= 20
        &&& all_digits(self.digits@.skip(self.start as int))
    }

    /// How many digits are still free in front.
    pub closed spec fn spec_room(&self) -> usize {
        self.start
    }

    /// An empty number.
    fn empty() -> (d: Self)
        ensures
            d@ == Seq::<u8>::empty(),
            d.spec_room() == 20,
    {
        let d = Decimal { digits: [0x30u8; 20], start: 20 };
        assert(d@ =~= Seq::<u8>::empty());
        d
    }

    /// The digits of a `u32`.
    pub fn of_u32(value: u32) -> (d: Self)
        ensures
            d@ == decimal_spec(value as nat),
    {
        let mut out = Self::empty();
        proof {
            lemma_decimal_len(value as nat);
        }
        out.prepend_u32(value);
        assert(out@ =~= decimal_spec(value as nat));
        out
    }

    /// The digits of any `u64`.
    pub fn of_u64(value: u64) -> (d: Self)
        ensures
            d@ == decimal_spec(value as nat),
    {
        let mut out = Self::empty();
        let mut value = value;
        let ghost whole = value as nat;
        proof {
            lemma_decimal_len(whole);
            assert(decimal_spec(whole) =~= decimal_spec(whole) + out@);
        }
        while value > u32::MAX as u64
            invariant
                decimal_spec(whole) == decimal_spec(value as nat) + out@,
                decimal_spec(whole).len() <= 20,
                out.spec_room() == 20 - out@.len(),
            decreases value,
        {
            let (quotient, rest) = divide_by_ten(value);
            proof {
                lemma_decimal_len(value as nat);
                lemma_decimal_len(quotient as nat);
            }
            let ghost before = out@;
            out.prepend(rest);
            proof {
                assert(decimal_spec(value as nat) == decimal_spec(quotient as nat).push(
                    digit(rest as nat),
                ));
                assert(decimal_spec(quotient as nat).push(digit(rest as nat)) + before
                    =~= decimal_spec(quotient as nat) + out@);
            }
            value = quotient;
        }
        out.prepend_u32(value as u32);
        assert(out@ =~= decimal_spec(whole));
        out
    }

    /// Writes the digits of `value` in front of those already there.
    fn prepend_u32(&mut self, value: u32)
        requires
            old(self).spec_room() >= decimal_spec(value as nat).len(),
        ensures
            final(self)@ == decimal_spec(value as nat) + old(self)@,
            final(self).spec_room() == old(self).spec_room() - decimal_spec(value as nat).len(),
    {
        let mut v = value;
        let ghost tail = self@;
        proof {
            lemma_decimal_len(value as nat);
        }
        loop
            invariant_except_break
                decimal_spec(value as nat) + tail == decimal_spec(v as nat) + self@,
                self.spec_room() >= decimal_spec(v as nat).len(),
            invariant
                self.spec_room() + self@.len() == old(self).spec_room() + tail.len(),
                tail == old(self)@,
            ensures
                decimal_spec(value as nat) + tail == self@,
                self.spec_room() + self@.len() == old(self).spec_room() + tail.len(),
            decreases v,
        {
            proof {
                lemma_decimal_len(v as nat);
            }
            let ghost before = self@;
            self.prepend(v % 10);
            proof {
                if v >= 10 {
                    assert(decimal_spec(v as nat) == decimal_spec((v / 10) as nat).push(
                        digit((v % 10) as nat),
                    ));
                    assert(decimal_spec((v / 10) as nat).push(digit((v % 10) as nat)) + before
                        =~= decimal_spec((v / 10) as nat) + self@);
                    lemma_decimal_len((v / 10) as nat);
                } else {
                    assert(decimal_spec(v as nat) + before =~= self@);
                }
            }
            v = v / 10;
            if v == 0 {
                break;
            }
        }
    }

    /// Writes one digit in front of those already there.
    fn prepend(&mut self, digit_value: u32)
        requires
            old(self).spec_room() > 0,
            digit_value < 10,
        ensures
            final(self)@ == seq![digit(digit_value as nat)] + old(self)@,
            final(self).spec_room() == old(self).spec_room() - 1,
    {
        proof {
            use_type_invariant(&*self);
        }
        let ghost before = self@;
        let start = self.start - 1;
        let mut digits = self.digits;
        digits[start] = 0x30 + digit_value as u8;
        assert(digits@.skip(start as int) =~= seq![digit(digit_value as nat)] + before);
        *self = Decimal { digits, start };
    }

    /// The digits, as bytes.
    pub(crate) fn digits(&self) -> (digits: &[u8])
        ensures
            digits@ == self@,
            all_digits(digits@),
    {
        proof {
            use_type_invariant(self);
        }
        let all = self.digits.as_slice();
        let digits = &all[self.start..20];
        assert(digits@ =~= self@);
        digits
    }

    /// The digits, as text.
    pub fn as_str(&self) -> (s: &str)
        ensures
            s.spec_bytes() == self@,
    {
        proof {
            use_type_invariant(self);
        }
        let all = self.digits.as_slice();
        let digits = &all[self.start..20];
        proof {
            assert(digits@ =~= self@);
            lemma_ascii_valid_utf8(digits@);
        }
        match utf8_str(digits) {
            Some(s) => s,
            None => {
                proof {
                    assert(false);
                }
                ""
            },
        }
    }
}

/// `value / 10` and `value % 10` by long division in 16-bit limbs, so that only 32-bit
/// divisions by the constant 10 are made.
fn divide_by_ten(value: u64) -> (r: (u64, u32))
    ensures
        r.0 == value / 10,
        r.1 == value % 10,
{
    let mut quotient = 0u64;
    let mut rest = 0u32;
    let mut k: u32 = 0;
    while k < 4
        invariant
            k <= 4,
            quotient == prefix(value, k as nat) / 10,
            rest == prefix(value, k as nat) % 10,
        decreases 4 - k,
    {
        let shift = 48 - 16 * k;
        let limb = (value >> shift) as u32 & 0xffff;
        proof {
            lemma_prefix_step(value, k as nat);
            lemma_limb_step(prefix(value, k as nat), limb as nat);
            assert(prefix(value, k as nat) < 0x1_0000_0000_0000);
        }
        let current = (rest << 16) | limb;
        proof {
            assert((rest << 16) | limb == rest * 65536 + limb) by (bit_vector)
                requires
                    rest < 10,
                    limb < 65536,
            ;
        }
        let low = current / 10;
        assert(quotient * 65536 + low <= u64::MAX);
        let next = (quotient << 16) | low as u64;
        proof {
            assert((quotient << 16) | (low as u64) == quotient * 65536 + low) by (bit_vector)
                requires
                    quotient < 0x1_0000_0000_0000,
                    low < 65536,
            ;
        }
        quotient = next;
        rest = current % 10;
        k = k + 1;
    }
    proof {
        assert(prefix(value, 4) == value);
    }
    (quotient, rest)
}

/// The top `k` of the four 16-bit limbs of `v`, as a number.
pub open spec fn prefix(v: u64, k: nat) -> nat {
    if k == 0 {
        0
    } else if k == 1 {
        (v >> 48) as nat
    } else if k == 2 {
        (v >> 32) as nat
    } else if k == 3 {
        (v >> 16) as nat
    } else {
        v as nat
    }
}

/// Each limb extends the prefix by sixteen bits.
proof fn lemma_prefix_step(v: u64, k: nat)
    requires
        k < 4,
    ensures
        ({
            let limb = ((v >> (48 - 16 * k) as u32) as u32 & 0xffff) as nat;
            &&& limb < 65536
            &&& prefix(v, k + 1) == prefix(v, k) * 65536 + limb
            &&& prefix(v, k) < 0x1_0000_0000_0000
        }),
{
    let s: u32 = (48 - 16 * k) as u32;
    let limb = (v >> s) as u32 & 0xffff;
    assert(limb < 65536) by (bit_vector)
        requires
            limb == (v >> s) as u32 & 0xffff,
    ;
    if k == 0 {
        assert(limb == v >> 48) by (bit_vector)
            requires
                s == 48,
                limb == (v >> s) as u32 & 0xffff,
        ;
    } else if k == 1 {
        assert((v >> 32) == (v >> 48) * 65536 + limb && v >> 48 < 0x1_0000_0000_0000) by (bit_vector)
            requires
                s == 32,
                limb == (v >> s) as u32 & 0xffff,
        ;
    } else if k == 2 {
        assert((v >> 16) == (v >> 32) * 65536 + limb && v >> 32 < 0x1_0000_0000_0000) by (bit_vector)
            requires
                s == 16,
                limb == (v >> s) as u32 & 0xffff,
        ;
    } else {
        assert(v == (v >> 16) * 65536 + limb && v >> 16 < 0x1_0000_0000_0000) by (bit_vector)
            requires
                s == 0,
                limb == (v >> s) as u32 & 0xffff,
        ;
    }
}

} // verus!
