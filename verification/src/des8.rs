//! The 8-bit descriptor family, as much of it as the file and socket APIs need: the
//! length a `TPtrC8` or `TPtr8` over a caller's bytes is built with.
use vstd::prelude::*;

use crate::error::{Result, SymbianError, error_of};
use crate::error_kind::ErrorKind;

verus! {

broadcast use crate::error::group_error;

/// `KMaskDesLength8` (`e32des8.h`): the greatest length an 8-bit descriptor can hold.
pub const MASK_DES_LENGTH8: u32 = 0x0fff_ffff;

/// The length a descriptor over `len` bytes is built with: `KErrTooBig` unless `len`
/// fits both the 28-bit length field and a `TInt`.
pub fn length_of(len: usize) -> (r: Result<i32>)
    ensures
        len <= MASK_DES_LENGTH8 ==> r == Ok::<i32, SymbianError>(len as i32),
        len > MASK_DES_LENGTH8 ==> r == Err::<i32, SymbianError>(error_of(ErrorKind::TooBig)),
{
    if len > MASK_DES_LENGTH8 as usize || len > i32::MAX as usize {
        return Err(SymbianError::of(ErrorKind::TooBig));
    }
    Ok(len as i32)
}

} // verus!
