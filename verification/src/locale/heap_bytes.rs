//! `HeapBytes`: bytes read out of a file into one heap cell of their own.
use vstd::prelude::*;
use vstd::std_specs::convert::FromSpec;

use super::layout::{ReadAt, Span, Unreadable, read_spec};
use crate::error::{Result, SymbianError, error_of};
use crate::error_kind::ErrorKind;

verus! {

broadcast use crate::error::group_error;

/// Exactly `span.len` bytes of a file, held on their own; an empty span holds none.
pub struct HeapBytes {
    bytes: Vec<u8>,
}

impl View for HeapBytes {
    type V = Seq<u8>;

    closed spec fn view(&self) -> Seq<u8> {
        self.bytes@
    }
}

impl HeapBytes {
    /// Reads `span` of `file`. `KErrTooBig` for a span no `TInt` cell size can hold; a
    /// file that ends early is the reader's error.
    pub fn read<R: ReadAt<Error = SymbianError>>(file: &R, span: Span) -> (r: Result<Self>)
        ensures
            r matches Ok(b) ==> b@.len() == span.len,
            r matches Ok(b) ==> (file.exact() ==> read_spec(
                file.contents(),
                span.at as int,
                span.len as int,
            ) == Ok::<Seq<u8>, Unreadable>(b@)),
            span.len > i32::MAX ==> r == Err::<HeapBytes, SymbianError>(error_of(ErrorKind::TooBig)),
            file.exact() && span.len <= i32::MAX ==> (r is Ok <==> read_spec(
                file.contents(),
                span.at as int,
                span.len as int,
            ) is Ok),
            file.exact() && span.len <= i32::MAX && r is Err
                && <SymbianError as FromSpec<Unreadable>>::obeys_from_spec()
                ==> r == Err::<HeapBytes, SymbianError>(<SymbianError as FromSpec<Unreadable>>::from_spec(
                read_spec(file.contents(), span.at as int, span.len as int)->Err_0,
            )),
    {
        if span.len > i32::MAX as u32 {
            return Err(SymbianError::of(ErrorKind::TooBig));
        }
        let len = span.len as usize;
        let mut bytes: Vec<u8> = vec![0u8; len];
        match file.read_exact_at(span.at, bytes.as_mut_slice()) {
            Ok(()) => Ok(HeapBytes { bytes }),
            Err(e) => Err(e),
        }
    }

    /// The bytes.
    pub fn as_bytes(&self) -> (b: &[u8])
        ensures
            b@ == self@,
    {
        self.bytes.as_slice()
    }
}

} // verus!
