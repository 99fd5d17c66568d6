//! The Rust half of the heap/startup probe: one reading of the thread's allocator and of
//! the nanokernel tick counter, and the interval between two readings.
use vstd::prelude::*;

use crate::time::wrapping_interval;

verus! {

/// One reading of the thread's allocator and of the nanokernel tick counter.
#[derive(Clone, Copy)]
pub struct Probe {
    /// `User::AllocSize`'s return value: how many cells are allocated.
    pub cells: i32,
    /// `User::AllocSize`'s out-parameter: the bytes across those cells.
    pub bytes: i32,
    /// `User::NTickCount()`.
    pub ticks: u32,
}

impl Probe {
    /// Ticks from `earlier` to this reading, modulo `2^32`.
    pub fn ticks_since(self, earlier: Self) -> (ticks: u32)
        ensures
            ticks == wrapping_interval(self.ticks, earlier.ticks),
    {
        self.ticks.wrapping_sub(earlier.ticks)
    }
}

} // verus!
