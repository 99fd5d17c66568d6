//! Sockets' decisions: how a shutdown is named to the stack, what an address answer
//! means, how end of input is reported, and when a blocking request may be made.
//!
//! Every socket call is made at the edge; what is decided around the call is here.
use vstd::prelude::*;

use crate::des::Buf16;
use crate::des::utf16::utf16_of;
use crate::error::{Result, SymbianError, error_of};
use crate::error_kind::{ErrorKind, kind_of};

verus! {

broadcast use crate::error::group_error;

/// `KAfInet` (`in_sock.h`).
pub const KAF_INET: u32 = 0x0800;

/// `KAfInet6` (`in_sock.h`).
pub const KAF_INET6: u32 = 0x0806;

/// `KMaxHostName`: `THostName` is `TBuf<0x100>`, so a longer name cannot be asked about
/// and is `KErrOverflow` before any call.
pub const MAX_HOST_NAME: usize = 0x100;

/// `RSocket::ENormal`.
pub const ESHUTDOWN_NORMAL: i32 = 0;

/// `RSocket::EStopInput`.
pub const ESHUTDOWN_STOP_INPUT: i32 = 1;

/// `RSocket::EStopOutput`.
pub const ESHUTDOWN_STOP_OUTPUT: i32 = 2;

/// `RSocket::EImmediate`.
pub const ESHUTDOWN_IMMEDIATE: i32 = 3;

/// Which half of a connection to stop (`RSocket::TShutdown`).
#[derive(Debug, Clone, Copy, PartialEq, Eq, Structural)]
pub enum Shutdown {
    /// `EStopInput`: stop reading.
    Read,
    /// `EStopOutput`: stop writing, which is what sends the FIN.
    Write,
    /// `ENormal`: stop both and complete when the connection is closed gracefully.
    Both,
    /// `EImmediate`: abortive close, with no graceful exchange.
    Immediate,
}

impl Shutdown {
    /// The `TShutdown` value the stack takes.
    pub fn how(self) -> (how: i32)
        ensures
            how == (match self {
                Shutdown::Read => ESHUTDOWN_STOP_INPUT,
                Shutdown::Write => ESHUTDOWN_STOP_OUTPUT,
                Shutdown::Both => ESHUTDOWN_NORMAL,
                Shutdown::Immediate => ESHUTDOWN_IMMEDIATE,
            }),
    {
        match self {
            Shutdown::Read => ESHUTDOWN_STOP_INPUT,
            Shutdown::Write => ESHUTDOWN_STOP_OUTPUT,
            Shutdown::Both => ESHUTDOWN_NORMAL,
            Shutdown::Immediate => ESHUTDOWN_IMMEDIATE,
        }
    }
}

/// The error every IPv6 path in this crate returns: no IPv6 address has ever been
/// exercised on this stack, so `KErrNotSupported` says so honestly.
pub fn v6_unsupported() -> (e: SymbianError)
    ensures
        e == error_of(ErrorKind::NotSupported),
{
    SymbianError::of(ErrorKind::NotSupported)
}

/// How an address the stack answered with is read as IPv4.
#[derive(Debug, Clone, Copy, PartialEq, Eq, Structural)]
pub enum V4Reading {
    /// It is `KAfInet` already: read it.
    Direct,
    /// It is `KAfInet6` in v4-mapped form: convert it first, then read it.
    ConvertMapped,
}

/// How an address of `family` is brought to IPv4, when it can be: a v4-mapped
/// `KAfInet6` answer is converted, a genuine IPv6 one is `KErrNotSupported`.
pub fn v4_reading(family: u32, v4_mapped: bool) -> (r: Result<V4Reading>)
    ensures
        family == KAF_INET ==> r == Ok::<V4Reading, SymbianError>(V4Reading::Direct),
        family == KAF_INET6 && v4_mapped ==> r == Ok::<V4Reading, SymbianError>(
            V4Reading::ConvertMapped,
        ),
        family != KAF_INET && !(family == KAF_INET6 && v4_mapped) ==> r == Err::<
            V4Reading,
            SymbianError,
        >(error_of(ErrorKind::NotSupported)),
{
    if family == KAF_INET {
        Ok(V4Reading::Direct)
    } else if family == KAF_INET6 && v4_mapped {
        Ok(V4Reading::ConvertMapped)
    } else {
        Err(v6_unsupported())
    }
}

/// A resolver's answer read as IPv4: an answer of `0.0.0.0` with `KErrNone` is a case
/// nothing has produced, and is "not found" rather than an address.
pub fn resolved_address(raw: u32) -> (r: Result<u32>)
    ensures
        raw != 0 ==> r == Ok::<u32, SymbianError>(raw),
        raw == 0 ==> r == Err::<u32, SymbianError>(error_of(ErrorKind::NotFound)),
{
    if raw == 0 {
        Err(SymbianError::of(ErrorKind::NotFound))
    } else {
        Ok(raw)
    }
}

/// What a completed `RSocket::RecvOneOrMore` means: the bytes that arrived, also when the
/// request completed with `KErrEof`, which says only that no more will come.
pub fn recv_outcome(outcome: Result<i32>, received: usize) -> (r: Result<usize>)
    ensures
        match outcome {
            Ok(_) => r == Ok::<usize, SymbianError>(received),
            Err(e) => if kind_of(e.spec_code()) == ErrorKind::Eof {
                r == Ok::<usize, SymbianError>(received)
            } else {
                r == Err::<usize, SymbianError>(e)
            },
        },
{
    match outcome {
        Ok(_) => Ok(received),
        Err(e) => {
            if e.kind() == ErrorKind::Eof {
                Ok(received)
            } else {
                Err(e)
            }
        },
    }
}

/// Whether a blocking request may wait here: not on a thread that has a
/// `CActiveScheduler` installed, where `KErrInUse` is the answer instead of a wait
/// nothing would end.
pub fn blocking_allowed(scheduler_installed: bool) -> (r: Result<()>)
    ensures
        scheduler_installed <==> r == Err::<(), SymbianError>(error_of(ErrorKind::InUse)),
        !scheduler_installed <==> r is Ok,
{
    if scheduler_installed {
        Err(SymbianError::of(ErrorKind::InUse))
    } else {
        Ok(())
    }
}

/// A host name in the `THostName` a lookup takes: `KErrOverflow` when it is longer than
/// `KMaxHostName`, raised here rather than by overflowing a descriptor.
pub fn host_name(name: &str) -> (r: Result<Buf16<MAX_HOST_NAME>>)
    ensures
        r is Ok <==> utf16_of(name@).len() <= MAX_HOST_NAME,
        r matches Ok(b) ==> b@ == utf16_of(name@),
        r is Err ==> r == Err::<Buf16<MAX_HOST_NAME>, SymbianError>(error_of(ErrorKind::Overflow)),
{
    let mut buf = Buf16::<MAX_HOST_NAME>::new();
    match buf.push_str(name) {
        Ok(()) => {},
        Err(e) => {
            return Err(e);
        },
    }
    assert(buf@ =~= utf16_of(name@));
    Ok(buf)
}

} // verus!
