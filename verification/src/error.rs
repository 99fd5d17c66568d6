//! `SymbianError`: a system-wide `TInt` error code, with its `e32err.h` name.
use vstd::prelude::*;
use vstd::string::StringSliceAdditionalSpecFns;
use vstd::utf8::{encode_utf8, encode_utf8_decode_utf8, encode_utf8_valid_utf8, is_ascii_chars};

use crate::des::utf16::utf8_str;
use crate::error_kind::{ErrorKind, is_named_code, kind_code, kind_name, kind_of};
use crate::fmt::decimal::{Decimal, decimal_spec, lemma_decimal_len};
use crate::fmt::utf16::lemma_encode_utf8_concat;

verus! {

/// A failed Symbian call, holding the exact `TInt` it returned.
///
/// The raw code is kept because it is the only thing a Symbian API and a Symbian user
/// agree on: component-specific codes below `-48` have no name in `e32err.h` and must
/// still survive a round trip through Rust.
#[derive(Debug, Clone, Copy, PartialEq, Eq, Hash, Structural)]
pub struct SymbianError(i32);

/// The result of a Symbian call that can fail.
pub type Result<T> = core::result::Result<T, SymbianError>;

impl SymbianError {
    /// The raw `TInt`, for contracts.
    pub closed spec fn spec_code(self) -> i32 {
        self.0
    }

    /// The error holding `code`, for contracts.
    pub closed spec fn spec_from_code(code: i32) -> SymbianError {
        SymbianError(code)
    }

    /// Wraps a `TInt` that has already been recognised as a failure.
    pub fn from_code(code: i32) -> (e: Self)
        ensures
            e == SymbianError::spec_from_code(code),
    {
        SymbianError(code)
    }

    /// The named code, for an error this crate raises itself.
    pub fn of(kind: ErrorKind) -> (e: Self)
        ensures
            e == error_of(kind),
    {
        SymbianError(kind.code())
    }

    /// The raw `TInt`.
    pub fn code(self) -> (code: i32)
        ensures
            code == self.spec_code(),
    {
        self.0
    }

    /// The `KErrXxx` this code is (`e32err.h`).
    pub fn kind(self) -> (kind: ErrorKind)
        ensures
            kind == kind_of(self.spec_code()),
    {
        ErrorKind::of(self.0)
    }

    /// The error written out as `Debug` and `Display` write it: the name, then the raw
    /// code in parentheses, `KErrNotFound (-1)`.
    pub fn describe(self) -> (s: String)
        ensures
            s@ == describe_spec(self),
    {
        let name = self.kind().name();
        let code = self.0;
        let magnitude: u32 = if code < 0 {
            (0 - code as i64) as u32
        } else {
            code as u32
        };
        let digits = Decimal::of_u32(magnitude);
        let digit_bytes = digits.digits();
        let name_bytes = name.as_bytes();
        let mut bytes: Vec<u8> = Vec::new();
        let mut i: usize = 0;
        while i < name_bytes.len()
            invariant
                i <= name_bytes@.len(),
                bytes@ == name_bytes@.take(i as int),
            decreases name_bytes@.len() - i,
        {
            bytes.push(name_bytes[i]);
            proof {
                assert(name_bytes@.take(i + 1) =~= name_bytes@.take(i as int).push(name_bytes@[i as int]));
            }
            i = i + 1;
        }
        assert(name_bytes@.take(name_bytes@.len() as int) =~= name_bytes@);
        let ghost head = bytes@;
        bytes.push(0x20);
        bytes.push(0x28);
        if code < 0 {
            bytes.push(0x2D);
        }
        let ghost before_digits = bytes@;
        let mut j: usize = 0;
        while j < digit_bytes.len()
            invariant
                j <= digit_bytes@.len(),
                bytes@ == before_digits + digit_bytes@.take(j as int),
            decreases digit_bytes@.len() - j,
        {
            bytes.push(digit_bytes[j]);
            proof {
                assert(digit_bytes@.take(j + 1) =~= digit_bytes@.take(j as int).push(digit_bytes@[j as int]));
            }
            j = j + 1;
        }
        assert(digit_bytes@.take(digit_bytes@.len() as int) =~= digit_bytes@);
        bytes.push(0x29);
        proof {
            let suffix = code_suffix(code);
            let ghost n: nat = if code < 0 { (-code) as nat } else { code as nat };
            assert(magnitude == n);
            lemma_decimal_len(n);
            assert(is_ascii_chars(suffix));
            vstd::utf8::is_ascii_chars_encode_utf8(suffix);
            assert(encode_utf8(suffix) =~= bytes@.skip(head.len() as int));
            assert(bytes@ =~= head + bytes@.skip(head.len() as int));
            lemma_encode_utf8_concat(name@, suffix);
            assert(encode_utf8(describe_spec(self)) == bytes@);
            encode_utf8_valid_utf8(describe_spec(self));
        }
        match utf8_str(bytes.as_slice()) {
            Some(s) => {
                proof {
                    encode_utf8_decode_utf8(s@);
                    encode_utf8_decode_utf8(describe_spec(self));
                }
                s.to_owned()
            },
            None => {
                proof {
                    assert(false);
                }
                String::new()
            },
        }
    }
}

/// The characters of a number's decimal digits.
pub open spec fn digit_chars(v: nat) -> Seq<char> {
    decimal_spec(v).map_values(|b: u8| b as char)
}

/// What follows an error's name when it is written out: a space, then the raw code, with
/// its sign, in parentheses.
pub open spec fn code_suffix(code: i32) -> Seq<char> {
    let number = if code < 0 {
        seq!['-'] + digit_chars((-code) as nat)
    } else {
        digit_chars(code as nat)
    };
    seq![' ', '('] + number + seq![')']
}

/// How an error is written out: its `e32err.h` name, then the raw code in parentheses,
/// `KErrNotFound (-1)`.
pub open spec fn describe_spec(e: SymbianError) -> Seq<char> {
    kind_name(kind_of(e.spec_code())) + code_suffix(e.spec_code())
}

/// The error `SymbianError::of(kind)` builds, in specifications.
pub open spec fn error_of(kind: ErrorKind) -> SymbianError {
    SymbianError::spec_from_code(kind_code(kind))
}

/// An error is exactly its code.
pub broadcast proof fn lemma_error_code(e: SymbianError)
    ensures
        #[trigger] SymbianError::spec_from_code(e.spec_code()) == e,
{
}

/// The code an error was made from is the code it reports.
pub broadcast proof fn lemma_code_of_error(code: i32)
    ensures
        #[trigger] SymbianError::spec_from_code(code).spec_code() == code,
{
}

/// The facts every module reasons about errors with.
pub broadcast group group_error {
    lemma_error_code,
    lemma_code_of_error,
}

/// What `check` makes of a `TInt`.
pub open spec fn checked(code: i32) -> Result<i32> {
    if code < 0 {
        Err(SymbianError::spec_from_code(code))
    } else {
        Ok(code)
    }
}

/// `KErrNone` is `0` and every failure is negative; a positive `TInt` is a result, not an
/// error, so only a negative code becomes an `Err`.
pub fn check(code: i32) -> (r: Result<i32>)
    ensures
        r == checked(code),
{
    if code < 0 {
        Err(SymbianError(code))
    } else {
        Ok(code)
    }
}

/// A code read as its kind and written back is the same code: the raw `TInt` survives a
/// round trip through Rust, named or not.
pub proof fn law_code_kind_round_trip(code: i32)
    ensures
        kind_code(kind_of(code)) == code,
{
}

/// A kind written as its code and read back is the same kind — except an `Unknown`
/// holding a code that `e32err.h` does name, which reads back under that name.
pub proof fn law_kind_code_round_trip(kind: ErrorKind)
    requires
        match kind {
            ErrorKind::Unknown(code) => !is_named_code(code),
            _ => true,
        },
    ensures
        kind_of(kind_code(kind)) == kind,
{
}

/// Only a negative code is a failure, and both halves carry the exact code.
pub proof fn law_check(code: i32)
    ensures
        checked(code) is Err <==> code < 0,
        checked(code) matches Ok(v) ==> v == code,
        checked(code) matches Err(e) ==> e.spec_code() == code,
{
}

impl From<ErrorKind> for SymbianError {
    fn from(kind: ErrorKind) -> (e: Self) {
        Self::of(kind)
    }
}

impl vstd::std_specs::convert::FromSpecImpl<ErrorKind> for SymbianError {
    open spec fn obeys_from_spec() -> bool {
        true
    }

    open spec fn from_spec(kind: ErrorKind) -> SymbianError {
        error_of(kind)
    }
}

} // verus!
