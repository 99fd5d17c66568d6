//! The Symbian clocks: three counters that count up from an unspecified origin, and the
//! wall clock.
//!
//! Each counter is a distinct type rather than a bare number, because the one thing that
//! matters about them is that they are **not interchangeable**: they have different
//! periods, different origins and, for [`FastCounter`], a direction that is a property
//! of the board. Reading them is a kernel call made at the edge; what is done with a
//! reading is here.
use vstd::prelude::*;

verus! {

/// `a - b` modulo `2^32`: how a free-running 32-bit counter measures an interval.
pub open spec fn wrapping_interval(a: u32, b: u32) -> u32 {
    if a >= b {
        (a - b) as u32
    } else {
        (a - b + 0x1_0000_0000) as u32
    }
}

/// `a + b` modulo `2^32`.
pub open spec fn wrapping_advance(a: u32, b: u32) -> u32 {
    if a + b <= u32::MAX {
        (a + b) as u32
    } else {
        (a + b - 0x1_0000_0000) as u32
    }
}

/// The **nanokernel** tick counter, `User::NTickCount()`: a free-running `TUint32` that
/// counts up and wraps at `2^32` ticks.
#[derive(Clone, Copy, Debug, PartialEq, Eq, PartialOrd, Ord, Hash, Structural)]
pub struct NanoTicks(u32);

impl NanoTicks {
    /// The raw tick value, for contracts.
    pub closed spec fn spec_raw(self) -> u32 {
        self.0
    }

    /// A reading of the counter.
    pub fn from_raw(raw: u32) -> (t: Self)
        ensures
            t.spec_raw() == raw,
    {
        NanoTicks(raw)
    }

    /// The raw tick value.
    pub fn raw(self) -> (raw: u32)
        ensures
            raw == self.spec_raw(),
    {
        self.0
    }

    /// Ticks from `earlier` to `self`, counted the only way a wrapping counter can be:
    /// modulo `2^32`. Correct for any true interval shorter than one wrap.
    pub fn ticks_since(self, earlier: Self) -> (ticks: u32)
        ensures
            ticks == wrapping_interval(self.spec_raw(), earlier.spec_raw()),
    {
        self.0.wrapping_sub(earlier.0)
    }

    /// The tick `ticks` after this one.
    pub fn advanced_by(self, ticks: u32) -> (t: Self)
        ensures
            t.spec_raw() == wrapping_advance(self.spec_raw(), ticks),
    {
        NanoTicks(self.0.wrapping_add(ticks))
    }
}

/// The **system** tick counter, `User::TickCount()`: coarser than [`NanoTicks`], and also
/// a `TUint` that wraps at `2^32`.
#[derive(Clone, Copy, Debug, PartialEq, Eq, PartialOrd, Ord, Hash, Structural)]
pub struct SystemTicks(u32);

impl SystemTicks {
    /// The raw tick value, for contracts.
    pub closed spec fn spec_raw(self) -> u32 {
        self.0
    }

    /// A reading of the counter.
    pub fn from_raw(raw: u32) -> (t: Self)
        ensures
            t.spec_raw() == raw,
    {
        SystemTicks(raw)
    }

    /// The raw tick value.
    pub fn raw(self) -> (raw: u32)
        ensures
            raw == self.spec_raw(),
    {
        self.0
    }

    /// Ticks from `earlier` to `self`, modulo `2^32`.
    pub fn ticks_since(self, earlier: Self) -> (ticks: u32)
        ensures
            ticks == wrapping_interval(self.spec_raw(), earlier.spec_raw()),
    {
        self.0.wrapping_sub(earlier.0)
    }
}

/// `User::FastCounter()`: the highest-resolution counter the board offers. Neither its
/// frequency nor its direction can be read without `hal.dll`, so nothing here builds a
/// duration out of it.
#[derive(Clone, Copy, Debug, PartialEq, Eq, PartialOrd, Ord, Hash, Structural)]
pub struct FastCounter(u32);

impl FastCounter {
    /// The raw counter value, for contracts.
    pub closed spec fn spec_raw(self) -> u32 {
        self.0
    }

    /// A reading of the counter.
    pub fn from_raw(raw: u32) -> (t: Self)
        ensures
            t.spec_raw() == raw,
    {
        FastCounter(raw)
    }

    /// The raw counter value.
    pub fn raw(self) -> (raw: u32)
        ensures
            raw == self.spec_raw(),
    {
        self.0
    }
}

/// A Symbian `TTime`: microseconds since midnight, 1 January 0 AD nominal Gregorian, as a
/// signed 64-bit count. BC dates are negative. This is the wall clock, and it can go
/// backwards when it is set.
#[derive(Clone, Copy, Debug, PartialEq, Eq, PartialOrd, Ord, Hash, Structural)]
pub struct Ttime(i64);

impl Ttime {
    /// The raw value, for contracts.
    pub closed spec fn spec_micros(self) -> i64 {
        self.0
    }

    /// Wraps a raw `TTime` value.
    pub fn from_micros_since_year_zero(micros: i64) -> (t: Self)
        ensures
            t.spec_micros() == micros,
    {
        Ttime(micros)
    }

    /// The raw `TTime` value: microseconds since 1 January 0 AD.
    pub fn micros_since_year_zero(self) -> (micros: i64)
        ensures
            micros == self.spec_micros(),
    {
        self.0
    }
}

/// Measuring from a tick to the tick `n` after it gives back `n`, whatever the wrap.
pub proof fn law_ticks_since_undoes_advance(t: NanoTicks, n: u32)
    ensures
        wrapping_interval(wrapping_advance(t.spec_raw(), n), t.spec_raw()) == n,
{
}

} // verus!
