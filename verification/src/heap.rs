//! The Rust heap on Symbian OS 9.3: what a `GlobalAlloc` over `User::Alloc` asks euser
//! for, and where an over-aligned payload goes inside the cell it gets back.
//!
//! Every `User::Alloc` cell was **observed** to be 8-aligned on this ROM, so a request
//! for that alignment or less is passed straight through, and a request for more is
//! padded by hand: the cell is `size + align` bytes, the payload sits at the first
//! `align` boundary above the cell's own address, and the 4 bytes just below the payload
//! remember where the cell started.
use vstd::prelude::*;

verus! {

/// `KErrNoMemory` (`e32err.h`).
pub const KERR_NO_MEMORY: i32 = -4;

/// The alignment every `User::Alloc` cell is observed to have. A request for more is
/// padded by hand rather than trusted.
pub const MAX_TRUSTED_ALIGN: usize = 8;

/// The global heap of the *current thread*.
pub struct SymbianHeap;

/// Whether `a` is a power of two.
pub open spec fn is_power_of_two(a: usize) -> bool {
    a > 0 && a & ((a - 1) as usize) == 0
}

/// The cell size `User::Alloc` is asked for: `TInt` is signed, so a request that does
/// not fit is a failure, not a truncation.
pub open spec fn cell_size_spec(bytes: int) -> Option<i32> {
    if 0 <= bytes <= i32::MAX {
        Some(bytes as i32)
    } else {
        None
    }
}

/// The cell a layout of `size` bytes aligned to `align` needs: the size itself up to the
/// trusted alignment, the size plus the alignment's slack above it.
pub open spec fn alloc_request_spec(size: usize, align: usize) -> Option<i32> {
    if align <= MAX_TRUSTED_ALIGN {
        cell_size_spec(size as int)
    } else {
        cell_size_spec(size + align)
    }
}

/// The cell asked for always holds the payload: up to the trusted alignment the cell is
/// the payload's own size, asked for whenever that fits a `TInt`; above it the cell has
/// at least `align` bytes of slack, asked for whenever the padded size fits, so a
/// payload placed anywhere from the cell's start up to `align` bytes into it (as
/// `place_padded` places it) ends inside the cell.
pub proof fn law_cell_holds_payload(size: usize, align: usize, cell: int, payload: int)
    ensures
        align <= MAX_TRUSTED_ALIGN ==> (alloc_request_spec(size, align) is Some <==> size <= i32::MAX),
        align <= MAX_TRUSTED_ALIGN && alloc_request_spec(size, align) is Some
            ==> alloc_request_spec(size, align)->0 == size,
        align > MAX_TRUSTED_ALIGN ==> (alloc_request_spec(size, align) is Some <==> size + align
            <= i32::MAX),
        align > MAX_TRUSTED_ALIGN && alloc_request_spec(size, align) is Some
            ==> alloc_request_spec(size, align)->0 >= size + align,
        align > MAX_TRUSTED_ALIGN && alloc_request_spec(size, align) is Some && cell <= payload
            <= cell + align ==> payload + size <= cell + alloc_request_spec(size, align)->0,
{
}

impl SymbianHeap {
    /// `TInt` is signed: a request that does not fit is a failure, not a truncation.
    pub fn cell_size(bytes: usize) -> (r: Option<i32>)
        ensures
            r == cell_size_spec(bytes as int),
    {
        if bytes <= i32::MAX as usize {
            Some(bytes as i32)
        } else {
            None
        }
    }

    /// What `User::Alloc` is asked for to serve a layout, or `None` when no cell can.
    pub fn alloc_request(size: usize, align: usize) -> (r: Option<i32>)
        ensures
            r == alloc_request_spec(size, align),
    {
        if align <= MAX_TRUSTED_ALIGN {
            return Self::cell_size(size);
        }
        if size > usize::MAX - align {
            return None;
        }
        Self::cell_size(size + align)
    }

    /// Where the aligned payload goes inside an over-aligned cell at address `cell`: the
    /// first `align` boundary above it. The cell is 8-aligned and `align` a power of two
    /// above 8, so the payload is at least 8 bytes above the cell — room for the 4-byte
    /// back pointer just below it — and at most `align` above, inside the cell.
    pub fn place_padded(cell: usize, align: usize) -> (payload: usize)
        requires
            is_power_of_two(align),
            align > MAX_TRUSTED_ALIGN,
            cell % 8 == 0,
            cell + align <= usize::MAX,
        ensures
            payload & ((align - 1) as usize) == 0,
            cell + 8 <= payload <= cell + align,
    {
        let sum = cell + align;
        let payload = sum & !(align - 1);
        assert(cell % 8 == 0 ==> cell & 7 == 0) by (bit_vector);
        assert(payload & ((align - 1) as usize) == 0 && payload <= sum && payload >= cell + 8)
            by (bit_vector)
            requires
                align > 8,
                align & ((align - 1) as usize) == 0,
                cell & 7 == 0,
                sum == cell + align,
                payload == sum & !((align - 1) as usize),
        ;
        payload
    }

    /// How many bytes survive a move to a new block when an over-aligned block is
    /// reallocated: those that exist in both.
    pub fn preserved(old_size: usize, new_size: usize) -> (n: usize)
        ensures
            n == if old_size <= new_size {
                old_size
            } else {
                new_size
            },
    {
        if old_size <= new_size {
            old_size
        } else {
            new_size
        }
    }
}

} // verus!
