//! The `KErrXxx` names of `epoc32/include/e32err.h`, in the order the header declares
//! them.
use vstd::prelude::*;

verus! {

/// A system-wide Symbian error code, by name (`e32err.h`).
///
/// `Unknown` carries a code the header does not name: a component-specific error
/// (below `-48`) or a positive value, which is never an error.
#[derive(Debug, Clone, Copy, PartialEq, Eq, Hash, Structural)]
#[non_exhaustive]
pub enum ErrorKind {
    /// `KErrNone` (0).
    NoError,
    /// `KErrNotFound` (-1).
    NotFound,
    /// `KErrGeneral` (-2).
    General,
    /// `KErrCancel` (-3).
    Cancel,
    /// `KErrNoMemory` (-4).
    NoMemory,
    /// `KErrNotSupported` (-5).
    NotSupported,
    /// `KErrArgument` (-6).
    Argument,
    /// `KErrTotalLossOfPrecision` (-7).
    TotalLossOfPrecision,
    /// `KErrBadHandle` (-8).
    BadHandle,
    /// `KErrOverflow` (-9).
    Overflow,
    /// `KErrUnderflow` (-10).
    Underflow,
    /// `KErrAlreadyExists` (-11).
    AlreadyExists,
    /// `KErrPathNotFound` (-12).
    PathNotFound,
    /// `KErrDied` (-13).
    Died,
    /// `KErrInUse` (-14).
    InUse,
    /// `KErrServerTerminated` (-15).
    ServerTerminated,
    /// `KErrServerBusy` (-16).
    ServerBusy,
    /// `KErrCompletion` (-17).
    Completion,
    /// `KErrNotReady` (-18).
    NotReady,
    /// `KErrUnknown` (-19).
    Unknown_,
    /// `KErrCorrupt` (-20).
    Corrupt,
    /// `KErrAccessDenied` (-21).
    AccessDenied,
    /// `KErrLocked` (-22).
    Locked,
    /// `KErrWrite` (-23).
    Write,
    /// `KErrDisMounted` (-24).
    DisMounted,
    /// `KErrEof` (-25).
    Eof,
    /// `KErrDiskFull` (-26).
    DiskFull,
    /// `KErrBadDriver` (-27).
    BadDriver,
    /// `KErrBadName` (-28).
    BadName,
    /// `KErrCommsLineFail` (-29).
    CommsLineFail,
    /// `KErrCommsFrame` (-30).
    CommsFrame,
    /// `KErrCommsOverrun` (-31).
    CommsOverrun,
    /// `KErrCommsParity` (-32).
    CommsParity,
    /// `KErrTimedOut` (-33).
    TimedOut,
    /// `KErrCouldNotConnect` (-34).
    CouldNotConnect,
    /// `KErrCouldNotDisconnect` (-35).
    CouldNotDisconnect,
    /// `KErrDisconnected` (-36).
    Disconnected,
    /// `KErrBadLibraryEntryPoint` (-37).
    BadLibraryEntryPoint,
    /// `KErrBadDescriptor` (-38).
    BadDescriptor,
    /// `KErrAbort` (-39).
    Abort,
    /// `KErrTooBig` (-40).
    TooBig,
    /// `KErrDivideByZero` (-41).
    DivideByZero,
    /// `KErrBadPower` (-42).
    BadPower,
    /// `KErrDirFull` (-43).
    DirFull,
    /// `KErrHardwareNotAvailable` (-44).
    HardwareNotAvailable,
    /// `KErrSessionClosed` (-45).
    SessionClosed,
    /// `KErrPermissionDenied` (-46).
    PermissionDenied,
    /// `KErrExtensionNotSupported` (-47).
    ExtensionNotSupported,
    /// `KErrCommsBreak` (-48).
    CommsBreak,
    /// A code `e32err.h` does not name.
    Unknown(i32),
}

/// The `TInt` `e32err.h` gives each named kind; an unnamed code stands for itself.
pub open spec fn kind_code(kind: ErrorKind) -> i32 {
    match kind {
        ErrorKind::NoError => 0i32,
        ErrorKind::NotFound => -1i32,
        ErrorKind::General => -2i32,
        ErrorKind::Cancel => -3i32,
        ErrorKind::NoMemory => -4i32,
        ErrorKind::NotSupported => -5i32,
        ErrorKind::Argument => -6i32,
        ErrorKind::TotalLossOfPrecision => -7i32,
        ErrorKind::BadHandle => -8i32,
        ErrorKind::Overflow => -9i32,
        ErrorKind::Underflow => -10i32,
        ErrorKind::AlreadyExists => -11i32,
        ErrorKind::PathNotFound => -12i32,
        ErrorKind::Died => -13i32,
        ErrorKind::InUse => -14i32,
        ErrorKind::ServerTerminated => -15i32,
        ErrorKind::ServerBusy => -16i32,
        ErrorKind::Completion => -17i32,
        ErrorKind::NotReady => -18i32,
        ErrorKind::Unknown_ => -19i32,
        ErrorKind::Corrupt => -20i32,
        ErrorKind::AccessDenied => -21i32,
        ErrorKind::Locked => -22i32,
        ErrorKind::Write => -23i32,
        ErrorKind::DisMounted => -24i32,
        ErrorKind::Eof => -25i32,
        ErrorKind::DiskFull => -26i32,
        ErrorKind::BadDriver => -27i32,
        ErrorKind::BadName => -28i32,
        ErrorKind::CommsLineFail => -29i32,
        ErrorKind::CommsFrame => -30i32,
        ErrorKind::CommsOverrun => -31i32,
        ErrorKind::CommsParity => -32i32,
        ErrorKind::TimedOut => -33i32,
        ErrorKind::CouldNotConnect => -34i32,
        ErrorKind::CouldNotDisconnect => -35i32,
        ErrorKind::Disconnected => -36i32,
        ErrorKind::BadLibraryEntryPoint => -37i32,
        ErrorKind::BadDescriptor => -38i32,
        ErrorKind::Abort => -39i32,
        ErrorKind::TooBig => -40i32,
        ErrorKind::DivideByZero => -41i32,
        ErrorKind::BadPower => -42i32,
        ErrorKind::DirFull => -43i32,
        ErrorKind::HardwareNotAvailable => -44i32,
        ErrorKind::SessionClosed => -45i32,
        ErrorKind::PermissionDenied => -46i32,
        ErrorKind::ExtensionNotSupported => -47i32,
        ErrorKind::CommsBreak => -48i32,
        ErrorKind::Unknown(code) => code,
    }
}

/// Whether `e32err.h` names `code`: the system-wide codes run from `0` down to `-48`.
pub open spec fn is_named_code(code: i32) -> bool {
    -48 <= code <= 0
}

/// The kind `e32err.h` gives a `TInt`.
pub open spec fn kind_of(code: i32) -> ErrorKind {
    match code {
        0 => ErrorKind::NoError,
        -1 => ErrorKind::NotFound,
        -2 => ErrorKind::General,
        -3 => ErrorKind::Cancel,
        -4 => ErrorKind::NoMemory,
        -5 => ErrorKind::NotSupported,
        -6 => ErrorKind::Argument,
        -7 => ErrorKind::TotalLossOfPrecision,
        -8 => ErrorKind::BadHandle,
        -9 => ErrorKind::Overflow,
        -10 => ErrorKind::Underflow,
        -11 => ErrorKind::AlreadyExists,
        -12 => ErrorKind::PathNotFound,
        -13 => ErrorKind::Died,
        -14 => ErrorKind::InUse,
        -15 => ErrorKind::ServerTerminated,
        -16 => ErrorKind::ServerBusy,
        -17 => ErrorKind::Completion,
        -18 => ErrorKind::NotReady,
        -19 => ErrorKind::Unknown_,
        -20 => ErrorKind::Corrupt,
        -21 => ErrorKind::AccessDenied,
        -22 => ErrorKind::Locked,
        -23 => ErrorKind::Write,
        -24 => ErrorKind::DisMounted,
        -25 => ErrorKind::Eof,
        -26 => ErrorKind::DiskFull,
        -27 => ErrorKind::BadDriver,
        -28 => ErrorKind::BadName,
        -29 => ErrorKind::CommsLineFail,
        -30 => ErrorKind::CommsFrame,
        -31 => ErrorKind::CommsOverrun,
        -32 => ErrorKind::CommsParity,
        -33 => ErrorKind::TimedOut,
        -34 => ErrorKind::CouldNotConnect,
        -35 => ErrorKind::CouldNotDisconnect,
        -36 => ErrorKind::Disconnected,
        -37 => ErrorKind::BadLibraryEntryPoint,
        -38 => ErrorKind::BadDescriptor,
        -39 => ErrorKind::Abort,
        -40 => ErrorKind::TooBig,
        -41 => ErrorKind::DivideByZero,
        -42 => ErrorKind::BadPower,
        -43 => ErrorKind::DirFull,
        -44 => ErrorKind::HardwareNotAvailable,
        -45 => ErrorKind::SessionClosed,
        -46 => ErrorKind::PermissionDenied,
        -47 => ErrorKind::ExtensionNotSupported,
        -48 => ErrorKind::CommsBreak,
        other => ErrorKind::Unknown(other),
    }
}

/// The `KErrXxx` identifier of a kind, as written in `e32err.h`.
pub open spec fn kind_name(kind: ErrorKind) -> Seq<char> {
    match kind {
        ErrorKind::NoError => "KErrNone"@,
        ErrorKind::NotFound => "KErrNotFound"@,
        ErrorKind::General => "KErrGeneral"@,
        ErrorKind::Cancel => "KErrCancel"@,
        ErrorKind::NoMemory => "KErrNoMemory"@,
        ErrorKind::NotSupported => "KErrNotSupported"@,
        ErrorKind::Argument => "KErrArgument"@,
        ErrorKind::TotalLossOfPrecision => "KErrTotalLossOfPrecision"@,
        ErrorKind::BadHandle => "KErrBadHandle"@,
        ErrorKind::Overflow => "KErrOverflow"@,
        ErrorKind::Underflow => "KErrUnderflow"@,
        ErrorKind::AlreadyExists => "KErrAlreadyExists"@,
        ErrorKind::PathNotFound => "KErrPathNotFound"@,
        ErrorKind::Died => "KErrDied"@,
        ErrorKind::InUse => "KErrInUse"@,
        ErrorKind::ServerTerminated => "KErrServerTerminated"@,
        ErrorKind::ServerBusy => "KErrServerBusy"@,
        ErrorKind::Completion => "KErrCompletion"@,
        ErrorKind::NotReady => "KErrNotReady"@,
        ErrorKind::Unknown_ => "KErrUnknown"@,
        ErrorKind::Corrupt => "KErrCorrupt"@,
        ErrorKind::AccessDenied => "KErrAccessDenied"@,
        ErrorKind::Locked => "KErrLocked"@,
        ErrorKind::Write => "KErrWrite"@,
        ErrorKind::DisMounted => "KErrDisMounted"@,
        ErrorKind::Eof => "KErrEof"@,
        ErrorKind::DiskFull => "KErrDiskFull"@,
        ErrorKind::BadDriver => "KErrBadDriver"@,
        ErrorKind::BadName => "KErrBadName"@,
        ErrorKind::CommsLineFail => "KErrCommsLineFail"@,
        ErrorKind::CommsFrame => "KErrCommsFrame"@,
        ErrorKind::CommsOverrun => "KErrCommsOverrun"@,
        ErrorKind::CommsParity => "KErrCommsParity"@,
        ErrorKind::TimedOut => "KErrTimedOut"@,
        ErrorKind::CouldNotConnect => "KErrCouldNotConnect"@,
        ErrorKind::CouldNotDisconnect => "KErrCouldNotDisconnect"@,
        ErrorKind::Disconnected => "KErrDisconnected"@,
        ErrorKind::BadLibraryEntryPoint => "KErrBadLibraryEntryPoint"@,
        ErrorKind::BadDescriptor => "KErrBadDescriptor"@,
        ErrorKind::Abort => "KErrAbort"@,
        ErrorKind::TooBig => "KErrTooBig"@,
        ErrorKind::DivideByZero => "KErrDivideByZero"@,
        ErrorKind::BadPower => "KErrBadPower"@,
        ErrorKind::DirFull => "KErrDirFull"@,
        ErrorKind::HardwareNotAvailable => "KErrHardwareNotAvailable"@,
        ErrorKind::SessionClosed => "KErrSessionClosed"@,
        ErrorKind::PermissionDenied => "KErrPermissionDenied"@,
        ErrorKind::ExtensionNotSupported => "KErrExtensionNotSupported"@,
        ErrorKind::CommsBreak => "KErrCommsBreak"@,
        ErrorKind::Unknown(_) => "KErrUnnamed"@,
    }
}

/// One line of `e32err.h`: `code` is named `name`, and the library's kind for it
/// reads back as that code and prints as that name.
pub open spec fn header_line(code: i32, kind: ErrorKind, name: Seq<char>) -> bool {
    &&& kind_of(code) == kind
    &&& kind_code(kind) == code
    &&& kind_name(kind) == name
}

/// The system-wide codes as `e32err.h` declares them, line by line: each code from
/// `0` down to `-48` has the header's own identifier, and every other code is a
/// kind of its own that carries the code unchanged.
pub proof fn law_header_table()
    ensures
        header_line(0i32, ErrorKind::NoError, "KErrNone"@),
        header_line(-1i32, ErrorKind::NotFound, "KErrNotFound"@),
        header_line(-2i32, ErrorKind::General, "KErrGeneral"@),
        header_line(-3i32, ErrorKind::Cancel, "KErrCancel"@),
        header_line(-4i32, ErrorKind::NoMemory, "KErrNoMemory"@),
        header_line(-5i32, ErrorKind::NotSupported, "KErrNotSupported"@),
        header_line(-6i32, ErrorKind::Argument, "KErrArgument"@),
        header_line(-7i32, ErrorKind::TotalLossOfPrecision, "KErrTotalLossOfPrecision"@),
        header_line(-8i32, ErrorKind::BadHandle, "KErrBadHandle"@),
        header_line(-9i32, ErrorKind::Overflow, "KErrOverflow"@),
        header_line(-10i32, ErrorKind::Underflow, "KErrUnderflow"@),
        header_line(-11i32, ErrorKind::AlreadyExists, "KErrAlreadyExists"@),
        header_line(-12i32, ErrorKind::PathNotFound, "KErrPathNotFound"@),
        header_line(-13i32, ErrorKind::Died, "KErrDied"@),
        header_line(-14i32, ErrorKind::InUse, "KErrInUse"@),
        header_line(-15i32, ErrorKind::ServerTerminated, "KErrServerTerminated"@),
        header_line(-16i32, ErrorKind::ServerBusy, "KErrServerBusy"@),
        header_line(-17i32, ErrorKind::Completion, "KErrCompletion"@),
        header_line(-18i32, ErrorKind::NotReady, "KErrNotReady"@),
        header_line(-19i32, ErrorKind::Unknown_, "KErrUnknown"@),
        header_line(-20i32, ErrorKind::Corrupt, "KErrCorrupt"@),
        header_line(-21i32, ErrorKind::AccessDenied, "KErrAccessDenied"@),
        header_line(-22i32, ErrorKind::Locked, "KErrLocked"@),
        header_line(-23i32, ErrorKind::Write, "KErrWrite"@),
        header_line(-24i32, ErrorKind::DisMounted, "KErrDisMounted"@),
        header_line(-25i32, ErrorKind::Eof, "KErrEof"@),
        header_line(-26i32, ErrorKind::DiskFull, "KErrDiskFull"@),
        header_line(-27i32, ErrorKind::BadDriver, "KErrBadDriver"@),
        header_line(-28i32, ErrorKind::BadName, "KErrBadName"@),
        header_line(-29i32, ErrorKind::CommsLineFail, "KErrCommsLineFail"@),
        header_line(-30i32, ErrorKind::CommsFrame, "KErrCommsFrame"@),
        header_line(-31i32, ErrorKind::CommsOverrun, "KErrCommsOverrun"@),
        header_line(-32i32, ErrorKind::CommsParity, "KErrCommsParity"@),
        header_line(-33i32, ErrorKind::TimedOut, "KErrTimedOut"@),
        header_line(-34i32, ErrorKind::CouldNotConnect, "KErrCouldNotConnect"@),
        header_line(-35i32, ErrorKind::CouldNotDisconnect, "KErrCouldNotDisconnect"@),
        header_line(-36i32, ErrorKind::Disconnected, "KErrDisconnected"@),
        header_line(-37i32, ErrorKind::BadLibraryEntryPoint, "KErrBadLibraryEntryPoint"@),
        header_line(-38i32, ErrorKind::BadDescriptor, "KErrBadDescriptor"@),
        header_line(-39i32, ErrorKind::Abort, "KErrAbort"@),
        header_line(-40i32, ErrorKind::TooBig, "KErrTooBig"@),
        header_line(-41i32, ErrorKind::DivideByZero, "KErrDivideByZero"@),
        header_line(-42i32, ErrorKind::BadPower, "KErrBadPower"@),
        header_line(-43i32, ErrorKind::DirFull, "KErrDirFull"@),
        header_line(-44i32, ErrorKind::HardwareNotAvailable, "KErrHardwareNotAvailable"@),
        header_line(-45i32, ErrorKind::SessionClosed, "KErrSessionClosed"@),
        header_line(-46i32, ErrorKind::PermissionDenied, "KErrPermissionDenied"@),
        header_line(-47i32, ErrorKind::ExtensionNotSupported, "KErrExtensionNotSupported"@),
        header_line(-48i32, ErrorKind::CommsBreak, "KErrCommsBreak"@),
        forall|code: i32|
            !is_named_code(code) ==> #[trigger] kind_of(code) == ErrorKind::Unknown(code)
                && kind_code(ErrorKind::Unknown(code)) == code,
{
}

impl ErrorKind {
    /// The kind `e32err.h` gives this `TInt`.
    pub fn of(code: i32) -> (kind: ErrorKind)
        ensures
            kind == kind_of(code),
    {
        match code {
            0 => ErrorKind::NoError,
            -1 => ErrorKind::NotFound,
            -2 => ErrorKind::General,
            -3 => ErrorKind::Cancel,
            -4 => ErrorKind::NoMemory,
            -5 => ErrorKind::NotSupported,
            -6 => ErrorKind::Argument,
            -7 => ErrorKind::TotalLossOfPrecision,
            -8 => ErrorKind::BadHandle,
            -9 => ErrorKind::Overflow,
            -10 => ErrorKind::Underflow,
            -11 => ErrorKind::AlreadyExists,
            -12 => ErrorKind::PathNotFound,
            -13 => ErrorKind::Died,
            -14 => ErrorKind::InUse,
            -15 => ErrorKind::ServerTerminated,
            -16 => ErrorKind::ServerBusy,
            -17 => ErrorKind::Completion,
            -18 => ErrorKind::NotReady,
            -19 => ErrorKind::Unknown_,
            -20 => ErrorKind::Corrupt,
            -21 => ErrorKind::AccessDenied,
            -22 => ErrorKind::Locked,
            -23 => ErrorKind::Write,
            -24 => ErrorKind::DisMounted,
            -25 => ErrorKind::Eof,
            -26 => ErrorKind::DiskFull,
            -27 => ErrorKind::BadDriver,
            -28 => ErrorKind::BadName,
            -29 => ErrorKind::CommsLineFail,
            -30 => ErrorKind::CommsFrame,
            -31 => ErrorKind::CommsOverrun,
            -32 => ErrorKind::CommsParity,
            -33 => ErrorKind::TimedOut,
            -34 => ErrorKind::CouldNotConnect,
            -35 => ErrorKind::CouldNotDisconnect,
            -36 => ErrorKind::Disconnected,
            -37 => ErrorKind::BadLibraryEntryPoint,
            -38 => ErrorKind::BadDescriptor,
            -39 => ErrorKind::Abort,
            -40 => ErrorKind::TooBig,
            -41 => ErrorKind::DivideByZero,
            -42 => ErrorKind::BadPower,
            -43 => ErrorKind::DirFull,
            -44 => ErrorKind::HardwareNotAvailable,
            -45 => ErrorKind::SessionClosed,
            -46 => ErrorKind::PermissionDenied,
            -47 => ErrorKind::ExtensionNotSupported,
            -48 => ErrorKind::CommsBreak,
            other => ErrorKind::Unknown(other),
        }
    }

    /// The `KErrXxx` identifier, as written in `e32err.h`.
    pub fn name(self) -> (name: &'static str)
        ensures
            name@ == kind_name(self),
    {
        match self {
            ErrorKind::NoError => "KErrNone",
            ErrorKind::NotFound => "KErrNotFound",
            ErrorKind::General => "KErrGeneral",
            ErrorKind::Cancel => "KErrCancel",
            ErrorKind::NoMemory => "KErrNoMemory",
            ErrorKind::NotSupported => "KErrNotSupported",
            ErrorKind::Argument => "KErrArgument",
            ErrorKind::TotalLossOfPrecision => "KErrTotalLossOfPrecision",
            ErrorKind::BadHandle => "KErrBadHandle",
            ErrorKind::Overflow => "KErrOverflow",
            ErrorKind::Underflow => "KErrUnderflow",
            ErrorKind::AlreadyExists => "KErrAlreadyExists",
            ErrorKind::PathNotFound => "KErrPathNotFound",
            ErrorKind::Died => "KErrDied",
            ErrorKind::InUse => "KErrInUse",
            ErrorKind::ServerTerminated => "KErrServerTerminated",
            ErrorKind::ServerBusy => "KErrServerBusy",
            ErrorKind::Completion => "KErrCompletion",
            ErrorKind::NotReady => "KErrNotReady",
            ErrorKind::Unknown_ => "KErrUnknown",
            ErrorKind::Corrupt => "KErrCorrupt",
            ErrorKind::AccessDenied => "KErrAccessDenied",
            ErrorKind::Locked => "KErrLocked",
            ErrorKind::Write => "KErrWrite",
            ErrorKind::DisMounted => "KErrDisMounted",
            ErrorKind::Eof => "KErrEof",
            ErrorKind::DiskFull => "KErrDiskFull",
            ErrorKind::BadDriver => "KErrBadDriver",
            ErrorKind::BadName => "KErrBadName",
            ErrorKind::CommsLineFail => "KErrCommsLineFail",
            ErrorKind::CommsFrame => "KErrCommsFrame",
            ErrorKind::CommsOverrun => "KErrCommsOverrun",
            ErrorKind::CommsParity => "KErrCommsParity",
            ErrorKind::TimedOut => "KErrTimedOut",
            ErrorKind::CouldNotConnect => "KErrCouldNotConnect",
            ErrorKind::CouldNotDisconnect => "KErrCouldNotDisconnect",
            ErrorKind::Disconnected => "KErrDisconnected",
            ErrorKind::BadLibraryEntryPoint => "KErrBadLibraryEntryPoint",
            ErrorKind::BadDescriptor => "KErrBadDescriptor",
            ErrorKind::Abort => "KErrAbort",
            ErrorKind::TooBig => "KErrTooBig",
            ErrorKind::DivideByZero => "KErrDivideByZero",
            ErrorKind::BadPower => "KErrBadPower",
            ErrorKind::DirFull => "KErrDirFull",
            ErrorKind::HardwareNotAvailable => "KErrHardwareNotAvailable",
            ErrorKind::SessionClosed => "KErrSessionClosed",
            ErrorKind::PermissionDenied => "KErrPermissionDenied",
            ErrorKind::ExtensionNotSupported => "KErrExtensionNotSupported",
            ErrorKind::CommsBreak => "KErrCommsBreak",
            ErrorKind::Unknown(_) => "KErrUnnamed",
        }
    }

    /// The `TInt` this kind stands for, when the header names one.
    pub fn code(self) -> (code: i32)
        ensures
            code == kind_code(self),
    {
        match self {
            ErrorKind::NoError => 0,
            ErrorKind::NotFound => -1,
            ErrorKind::General => -2,
            ErrorKind::Cancel => -3,
            ErrorKind::NoMemory => -4,
            ErrorKind::NotSupported => -5,
            ErrorKind::Argument => -6,
            ErrorKind::TotalLossOfPrecision => -7,
            ErrorKind::BadHandle => -8,
            ErrorKind::Overflow => -9,
            ErrorKind::Underflow => -10,
            ErrorKind::AlreadyExists => -11,
            ErrorKind::PathNotFound => -12,
            ErrorKind::Died => -13,
            ErrorKind::InUse => -14,
            ErrorKind::ServerTerminated => -15,
            ErrorKind::ServerBusy => -16,
            ErrorKind::Completion => -17,
            ErrorKind::NotReady => -18,
            ErrorKind::Unknown_ => -19,
            ErrorKind::Corrupt => -20,
            ErrorKind::AccessDenied => -21,
            ErrorKind::Locked => -22,
            ErrorKind::Write => -23,
            ErrorKind::DisMounted => -24,
            ErrorKind::Eof => -25,
            ErrorKind::DiskFull => -26,
            ErrorKind::BadDriver => -27,
            ErrorKind::BadName => -28,
            ErrorKind::CommsLineFail => -29,
            ErrorKind::CommsFrame => -30,
            ErrorKind::CommsOverrun => -31,
            ErrorKind::CommsParity => -32,
            ErrorKind::TimedOut => -33,
            ErrorKind::CouldNotConnect => -34,
            ErrorKind::CouldNotDisconnect => -35,
            ErrorKind::Disconnected => -36,
            ErrorKind::BadLibraryEntryPoint => -37,
            ErrorKind::BadDescriptor => -38,
            ErrorKind::Abort => -39,
            ErrorKind::TooBig => -40,
            ErrorKind::DivideByZero => -41,
            ErrorKind::BadPower => -42,
            ErrorKind::DirFull => -43,
            ErrorKind::HardwareNotAvailable => -44,
            ErrorKind::SessionClosed => -45,
            ErrorKind::PermissionDenied => -46,
            ErrorKind::ExtensionNotSupported => -47,
            ErrorKind::CommsBreak => -48,
            ErrorKind::Unknown(code) => code,
        }
    }
}

} // verus!
