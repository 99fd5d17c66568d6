//! What the compiler calls and this platform does not provide: the comparison behind
//! `memcmp`/`bcmp`, the read-modify-write arithmetic behind the `__atomic_*` entry
//! points, and the bootstrap of the one lock those entry points take.
//!
//! The entry points themselves are unmangled `extern "C"` symbols over raw pointers and
//! a kernel lock, and live at the edge; what they compute is here.
use vstd::prelude::*;

use crate::des::{EBUFC, MAX_LENGTH, header, header_kind, header_len, header_spec, lemma_header_fields};

verus! {

/// The result of comparing `count` bytes: the difference of the first pair that
/// differs, as unsigned bytes, or `0` when none does (ISO C 7.24.4.1).
pub open spec fn compare_spec(left: Seq<u8>, right: Seq<u8>, count: int) -> i32
    decreases count,
{
    if count <= 0 {
        0
    } else {
        let first = compare_spec(left, right, count - 1);
        if first != 0 {
            first
        } else if left[count - 1] != right[count - 1] {
            (left[count - 1] - right[count - 1]) as i32
        } else {
            0
        }
    }
}

/// A byte-wise unsigned comparison of exactly `count` bytes, the whole of `memcmp`.
pub fn compare_bytes(left: &[u8], right: &[u8], count: usize) -> (r: i32)
    requires
        count <= left@.len(),
        count <= right@.len(),
    ensures
        r == compare_spec(left@, right@, count as int),
{
    let mut i: usize = 0;
    while i < count
        invariant
            i <= count,
            count <= left@.len(),
            count <= right@.len(),
            compare_spec(left@, right@, i as int) == 0,
        decreases count - i,
    {
        let (l, r) = (left[i], right[i]);
        if l != r {
            proof {
                lemma_compare_found(left@, right@, i as int, count as int);
            }
            return l as i32 - r as i32;
        }
        i = i + 1;
    }
    0
}

/// Once a difference is found, every longer comparison reports it.
proof fn lemma_compare_found(left: Seq<u8>, right: Seq<u8>, i: int, count: int)
    requires
        0 <= i < count,
        compare_spec(left, right, i) == 0,
        left[i] != right[i],
    ensures
        compare_spec(left, right, count) == (left[i] - right[i]) as i32,
    decreases count - i,
{
    if count > i + 1 {
        lemma_compare_found(left, right, i, count - 1);
    }
}

/// Comparing bytes with themselves finds no difference.
pub proof fn law_compare_reflexive(bytes: Seq<u8>, count: int)
    ensures
        compare_spec(bytes, bytes, count) == 0,
    decreases count,
{
    if count > 0 {
        law_compare_reflexive(bytes, count - 1);
    }
}

/// The comparison is zero exactly when the first `count` bytes of both are the same,
/// which is all `bcmp` promises.
pub proof fn law_compare_zero_iff_equal(left: Seq<u8>, right: Seq<u8>, count: int)
    requires
        0 <= count <= left.len(),
        count <= right.len(),
    ensures
        compare_spec(left, right, count) == 0 <==> left.take(count) == right.take(count),
    decreases count,
{
    if count > 0 {
        law_compare_zero_iff_equal(left, right, count - 1);
        let (l, r) = (left[count - 1], right[count - 1]);
        assert(left.take(count) == left.take(count - 1).push(l));
        assert(right.take(count) == right.take(count - 1).push(r));
        if left.take(count) == right.take(count) {
            assert(left.take(count - 1) =~= left.take(count).drop_last());
            assert(right.take(count - 1) =~= right.take(count).drop_last());
            assert(l == left.take(count).last());
        }
        if l != r {
            assert((l - r) as i32 != 0);
            assert(left.take(count)[count - 1] != right.take(count)[count - 1]);
        }
    } else {
        assert(left.take(0) =~= right.take(0));
    }
}

/// Swapping the operands negates the comparison.
pub proof fn law_compare_antisymmetric(left: Seq<u8>, right: Seq<u8>, count: int)
    ensures
        compare_spec(left, right, count) == -compare_spec(right, left, count),
    decreases count,
{
    if count > 0 {
        law_compare_antisymmetric(left, right, count - 1);
    }
}

/// One read-modify-write operation of the `__atomic_*` family.
#[derive(Debug, Clone, Copy, PartialEq, Eq, Structural)]
pub enum AtomicOp {
    /// `__atomic_exchange_N`.
    Exchange,
    /// `__atomic_fetch_add_N`.
    Add,
    /// `__atomic_fetch_sub_N`.
    Sub,
    /// `__atomic_fetch_and_N`.
    And,
    /// `__atomic_fetch_or_N`.
    Or,
    /// `__atomic_fetch_xor_N`.
    Xor,
    /// `__atomic_fetch_nand_N`.
    Nand,
}

/// What a read-modify-write of `op` stores over `old`, for a 32-bit location.
pub open spec fn combine_spec(op: AtomicOp, old: u32, value: u32) -> u32 {
    match op {
        AtomicOp::Exchange => value,
        AtomicOp::Add => ((old + value) % 0x1_0000_0000) as u32,
        AtomicOp::Sub => ((old - value + 0x1_0000_0000) % 0x1_0000_0000) as u32,
        AtomicOp::And => old & value,
        AtomicOp::Or => old | value,
        AtomicOp::Xor => old ^ value,
        AtomicOp::Nand => !(old & value),
    }
}

/// The value a read-modify-write of `op` stores over `old`. The entry point returns
/// `old` and stores this, under the lock.
pub fn combine(op: AtomicOp, old: u32, value: u32) -> (new: u32)
    ensures
        new == combine_spec(op, old, value),
{
    match op {
        AtomicOp::Exchange => value,
        AtomicOp::Add => old.wrapping_add(value),
        AtomicOp::Sub => old.wrapping_sub(value),
        AtomicOp::And => old & value,
        AtomicOp::Or => old | value,
        AtomicOp::Xor => old ^ value,
        AtomicOp::Nand => !(old & value),
    }
}

/// A fetch-sub of what a fetch-add added gives the old value back, whatever wraps.
pub proof fn law_sub_undoes_add(old: u32, value: u32)
    ensures
        combine_spec(AtomicOp::Sub, combine_spec(AtomicOp::Add, old, value), value) == old,
{
}

/// What each operation stores, told apart by how the stored value relates to the
/// old one: an exchange stores the given value whatever was there; a fetch-add or
/// fetch-sub that does not wrap stores the plain sum or difference; a fetch-xor
/// applied twice with one value leaves the location as it was, and clears it with
/// its own value; a fetch-or sets every bit of the value and a fetch-and keeps only
/// bits of it, each with its identity and its absorbing value; a fetch-nand stores
/// the complement of what a fetch-and stores.
pub proof fn law_read_modify_write(old: u32, value: u32, other: u32)
    ensures
        combine_spec(AtomicOp::Exchange, old, value) == value,
        combine_spec(AtomicOp::Exchange, old, value) == combine_spec(AtomicOp::Exchange, other, value),
        combine_spec(AtomicOp::Xor, combine_spec(AtomicOp::Xor, old, value), value) == old,
        combine_spec(AtomicOp::Or, old, value) & value == value,
        combine_spec(AtomicOp::And, old, value) | value == value,
        combine_spec(AtomicOp::Nand, old, value) == !combine_spec(AtomicOp::And, old, value),
        combine_spec(AtomicOp::Add, old, 0) == old,
        old + value <= u32::MAX ==> combine_spec(AtomicOp::Add, old, value) == old + value,
        value <= old ==> combine_spec(AtomicOp::Sub, old, value) == old - value,
        combine_spec(AtomicOp::And, old, 0xffff_ffff) == old,
        combine_spec(AtomicOp::And, old, 0) == 0,
        combine_spec(AtomicOp::Or, old, 0) == old,
        combine_spec(AtomicOp::Or, old, 0xffff_ffff) == 0xffff_ffffu32,
        combine_spec(AtomicOp::Xor, old, 0) == old,
        combine_spec(AtomicOp::Xor, old, old) == 0,
{
    assert(old & 0xffff_ffff == old) by (bit_vector);
    assert(old & 0 == 0) by (bit_vector);
    assert(old | 0 == old) by (bit_vector);
    assert(old | 0xffff_ffff == 0xffff_ffffu32) by (bit_vector);
    assert(old ^ 0 == old) by (bit_vector);
    assert(old ^ old == 0) by (bit_vector);
    assert((old ^ value) ^ value == old) by (bit_vector);
    assert((old | value) & value == value) by (bit_vector);
    assert((old & value) | value == value) by (bit_vector);
}

/// A compare-exchange on a location holding `old`, with the caller's `expected` and
/// `desired`: whether it succeeded, what the location holds after, and what the
/// caller's `expected` holds after — overwritten with what was there on failure, which
/// a compare-exchange loop relies on.
pub fn compare_exchange(old: u32, expected: u32, desired: u32) -> (r: (bool, u32, u32))
    ensures
        old == expected ==> r == (true, desired, expected),
        old != expected ==> r == (false, old, old),
{
    if old == expected {
        (true, desired, expected)
    } else {
        (false, old, old)
    }
}

/// What a thread racing to create the atomics' lock does next.
#[derive(Debug, Clone, Copy, PartialEq, Eq, Structural)]
pub enum LockStep {
    /// The lock exists: go on.
    Ready,
    /// Someone else is creating it: yield and look again.
    Wait,
    /// Creating it failed with this code: stop the process rather than pretend an
    /// operation was atomic.
    Fail(i32),
}

/// The step for a thread that sees `ready` in the published status: `1` once the lock
/// exists, `0` while it is being made, a negative `RFastLock::CreateLocal` code if that
/// failed.
pub fn lock_step(ready: i32) -> (step: LockStep)
    ensures
        step == (if ready == 1 {
            LockStep::Ready
        } else if ready == 0 {
            LockStep::Wait
        } else {
            LockStep::Fail(ready)
        }),
{
    if ready == 1 {
        LockStep::Ready
    } else if ready == 0 {
        LockStep::Wait
    } else {
        LockStep::Fail(ready)
    }
}

/// The status published after creating the lock returned `rc`: `1` for success, the
/// error itself otherwise.
pub fn created_status(rc: i32) -> (status: i32)
    ensures
        status == (if rc == 0 {
            1
        } else {
            rc
        }),
{
    if rc == 0 {
        1
    } else {
        rc
    }
}

/// A constant `TBufC16<N>` with the header word of the atomics' panic category: the
/// length in front of the text, with type `EBufC`.
pub struct DescriptorLiteral<const N: usize> {
    header: u32,
    text: [u16; N],
}

impl<const N: usize> DescriptorLiteral<N> {
    /// The header word, for contracts.
    pub closed spec fn spec_header(&self) -> u32 {
        self.header
    }

    /// The text, for contracts.
    pub closed spec fn spec_text(&self) -> Seq<u16> {
        self.text@
    }

    /// The literal for `text`, with the header word `_LIT` builds: type `EBufC` (0) in
    /// the top nibble and the length `N` in the low 28 bits.
    pub fn new(text: [u16; N]) -> (d: Self)
        requires
            N <= MAX_LENGTH,
        ensures
            d.spec_header() == header_spec(EBUFC, N as nat),
            d.spec_header() == N,
            header_kind(d.spec_header()) == EBUFC,
            header_len(d.spec_header()) == N,
            d.spec_text() == text@,
    {
        proof {
            lemma_header_fields(EBUFC, N as u32);
        }
        DescriptorLiteral { header: header(EBUFC, N), text }
    }

    /// The header word euser reads first.
    pub fn header_word(&self) -> (word: u32)
        ensures
            word == self.spec_header(),
    {
        self.header
    }

    /// The text after the header word.
    pub fn text(&self) -> (text: &[u16])
        ensures
            text@ == self.spec_text(),
    {
        self.text.as_slice()
    }
}

} // verus!
