//! The Symbian file system's decisions: how a path becomes the `TFileName` a call takes,
//! which `RFile` call opens a file, what a `TEntry`'s attribute bits say, and how the
//! file server's 32-bit sizes and positions meet Rust's.
//!
//! A path is a `&str` at the surface, but it is a *Symbian* path: a drive letter, a
//! backslash separator, and at most `KMaxFileName` (`0x100`) code units — a longer path
//! is `KErrOverflow` before any call is made.
use vstd::prelude::*;

use crate::des::Buf16;
use crate::des::utf16::utf16_of;
use crate::error::{Result, SymbianError, error_of, checked};
use crate::error_kind::{ErrorKind, kind_code};

verus! {

broadcast use crate::error::group_error;

/// `KMaxFileName` (`e32const.h`): the longest path the file server accepts, and the size
/// of the descriptor a path is built into.
pub const MAX_FILE_NAME: usize = 0x100;

/// `EFileShareAny` (`f32file.h`).
pub const EFILE_SHARE_ANY: u32 = 0x02;

/// `EFileRead` (`f32file.h`).
pub const EFILE_READ: u32 = 0x000;

/// `EFileWrite` (`f32file.h`).
pub const EFILE_WRITE: u32 = 0x200;

/// `ESeekStart` (`f32file.h`).
pub const ESEEK_START: i32 = 1;

/// `ESeekCurrent` (`f32file.h`).
pub const ESEEK_CURRENT: i32 = 2;

/// `ESeekEnd` (`f32file.h`).
pub const ESEEK_END: i32 = 3;

/// `KEntryAttVolume` (`f32file.h`).
pub const KENTRY_ATT_VOLUME: u32 = 0x0008;

/// `KEntryAttDir` (`f32file.h`).
pub const KENTRY_ATT_DIR: u32 = 0x0010;

/// A path in the descriptor the file server takes: `KErrOverflow` when it is longer than
/// `KMaxFileName`.
pub fn path_of(path: &str) -> (r: Result<Buf16<MAX_FILE_NAME>>)
    ensures
        r is Ok <==> utf16_of(path@).len() <= MAX_FILE_NAME,
        r matches Ok(b) ==> b@ == utf16_of(path@),
        r is Err ==> r == Err::<Buf16<MAX_FILE_NAME>, SymbianError>(error_of(ErrorKind::Overflow)),
{
    let mut name = Buf16::<MAX_FILE_NAME>::new();
    match name.push_str(path) {
        Ok(()) => {},
        Err(e) => {
            return Err(e);
        },
    }
    assert(name@ =~= utf16_of(path@));
    Ok(name)
}

/// `TFileMode` as the two choices an application actually makes. The share mode is
/// always `EFileShareAny`, the mode closest to POSIX.
#[derive(Debug, Clone, Copy, PartialEq, Eq, Structural)]
pub enum FileMode {
    /// `EFileShareAny | EFileRead`.
    Read,
    /// `EFileShareAny | EFileWrite`.
    Write,
    /// `EFileShareAny | EFileRead | EFileWrite`.
    ReadWrite,
}

impl FileMode {
    /// The `TUint aFileMode` an `RFile` member takes.
    pub fn bits(self) -> (bits: u32)
        ensures
            bits == (match self {
                FileMode::Read => EFILE_SHARE_ANY as int,
                _ => EFILE_SHARE_ANY + EFILE_WRITE,
            }),
    {
        let access = match self {
            FileMode::Read => EFILE_READ,
            FileMode::Write | FileMode::ReadWrite => EFILE_WRITE,
        };
        assert(EFILE_SHARE_ANY | EFILE_READ == 2) by (bit_vector);
        assert(EFILE_SHARE_ANY | EFILE_WRITE == 0x202) by (bit_vector);
        EFILE_SHARE_ANY | access
    }
}

/// Where a seek starts from (`TSeek`). `ESeekAddress` has no variant: it only means
/// anything on an execute-in-place file system and its result is an address.
#[derive(Debug, Clone, Copy, PartialEq, Eq, Structural)]
pub enum Seek {
    /// `ESeekStart`.
    Start(i32),
    /// `ESeekCurrent`.
    Current(i32),
    /// `ESeekEnd`.
    End(i32),
}

impl Seek {
    /// The `TSeek` mode and the offset an `RFile::Seek` takes.
    pub fn parts(self) -> (parts: (i32, i32))
        ensures
            parts == (match self {
                Seek::Start(n) => (ESEEK_START, n),
                Seek::Current(n) => (ESEEK_CURRENT, n),
                Seek::End(n) => (ESEEK_END, n),
            }),
    {
        match self {
            Seek::Start(n) => (ESEEK_START, n),
            Seek::Current(n) => (ESEEK_CURRENT, n),
            Seek::End(n) => (ESEEK_END, n),
        }
    }
}

/// Which `RFile` call opens a file.
#[derive(Debug, Clone, Copy, PartialEq, Eq, Structural)]
pub enum Opening {
    /// `RFile::Open`: the file must exist.
    Existing,
    /// `RFile::Create`: the file must not exist.
    New,
    /// `RFile::Replace`: create it, or truncate the one that is there.
    Replace,
    /// `RFile::Open`, then `RFile::Create` if that said `KErrNotFound`. Symbian has no
    /// create-if-missing-keep-contents call, so this is the pair of them, on one path.
    OpenOrCreate,
}

/// One of the three `RFile` calls that open a file.
#[derive(Debug, Clone, Copy, PartialEq, Eq, Structural)]
pub enum OpenCall {
    /// `RFile::Open`.
    Open,
    /// `RFile::Create`.
    Create,
    /// `RFile::Replace`.
    Replace,
}

impl Opening {
    /// The call made first.
    pub fn first_call(self) -> (call: OpenCall)
        ensures
            call == (match self {
                Opening::Existing | Opening::OpenOrCreate => OpenCall::Open,
                Opening::New => OpenCall::Create,
                Opening::Replace => OpenCall::Replace,
            }),
    {
        match self {
            Opening::Existing | Opening::OpenOrCreate => OpenCall::Open,
            Opening::New => OpenCall::Create,
            Opening::Replace => OpenCall::Replace,
        }
    }

    /// Whether the first call's `code` is followed by `RFile::Create` on a closed handle:
    /// only for [`Opening::OpenOrCreate`], and only when `Open` said `KErrNotFound`.
    pub fn creates_after(self, code: i32) -> (create: bool)
        ensures
            create == (self == Opening::OpenOrCreate && code == kind_code(ErrorKind::NotFound)),
    {
        match self {
            Opening::OpenOrCreate => code == SymbianError::of(ErrorKind::NotFound).code(),
            _ => false,
        }
    }
}

/// What a path names to the call that takes it.
#[derive(Debug, Clone, Copy, PartialEq, Eq, Structural)]
pub enum PathUse {
    /// The path as given: a file, or `RFs::MkDirAll` of the directories above one.
    AsGiven,
    /// A directory to create: a separator is added when the path does not end with one,
    /// so the last component is created too.
    Directory,
    /// A directory to list: a separator when missing, then the `*` wildcard that
    /// matches every name.
    Listing,
}

/// The `TFileName` a path becomes for one use of it: `KErrOverflow` if it, with the
/// separator and wildcard a directory call adds, is longer than `KMaxFileName`.
pub open spec fn request_name(path: Seq<char>, usage: PathUse) -> Seq<char> {
    let dir = if usage != PathUse::AsGiven && (path.len() == 0 || path.last() != '\\') {
        path.push('\\')
    } else {
        path
    };
    if usage == PathUse::Listing {
        dir.push('*')
    } else {
        dir
    }
}

/// Whether a path's last character is the separator `\\`.
pub open spec fn ends_with_separator(path: Seq<char>) -> bool {
    path.len() > 0 && path.last() == '\\'
}

/// What each use makes of a path: a file takes it unchanged; a directory to create
/// gets one separator, and only when the path lacks it, so the name ends with
/// exactly the separators the path ended with, or with one; a listing is that
/// directory name followed by `*`.
pub proof fn law_request_name(path: Seq<char>)
    ensures
        request_name(path, PathUse::AsGiven) == path,
        ends_with_separator(path) ==> request_name(path, PathUse::Directory) == path,
        !ends_with_separator(path) ==> request_name(path, PathUse::Directory) == path.push('\\'),
        ends_with_separator(request_name(path, PathUse::Directory)),
        request_name(path, PathUse::Directory).len() >= 2
            && request_name(path, PathUse::Directory)[request_name(path, PathUse::Directory).len() - 2]
            == '\\' ==> ends_with_separator(path) && path.len() >= 2 && path[path.len() - 2] == '\\',
        request_name(path, PathUse::Listing) == request_name(path, PathUse::Directory).push('*'),
{
}

/// The file-server name of `path` for `usage`.
pub fn request_path(path: &str, usage: PathUse) -> (r: Result<Buf16<MAX_FILE_NAME>>)
    ensures
        r is Ok <==> utf16_of(request_name(path@, usage)).len() <= MAX_FILE_NAME,
        r matches Ok(b) ==> b@ == utf16_of(request_name(path@, usage)),
        r is Err ==> r == Err::<Buf16<MAX_FILE_NAME>, SymbianError>(error_of(ErrorKind::Overflow)),
{
    proof {
        let d = if usage != PathUse::AsGiven && (path@.len() == 0 || path@.last() != '\\') {
            path@.push('\\')
        } else {
            path@
        };
        crate::des::utf16::lemma_utf16_of_push(path@, '\\');
        crate::des::utf16::lemma_utf16_of_push(d, '*');
        assert(utf16_of(request_name(path@, usage)).len() >= utf16_of(path@).len());
    }
    let mut name = path_of(path)?;
    let ghost dir = if usage != PathUse::AsGiven && (path@.len() == 0 || path@.last() != '\\') {
        path@.push('\\')
    } else {
        path@
    };
    let count = path.unicode_len();
    let ends_with_separator = count > 0 && path.get_char(count - 1) == '\\';
    if usage != PathUse::AsGiven && !ends_with_separator {
        proof {
            crate::des::utf16::lemma_utf16_of_push(path@, '\\');
            assert(crate::des::utf16::char_utf16('\\') =~= seq![0x5Cu16]);
        }
        match name.push('\\') {
            Ok(()) => {},
            Err(e) => {
                proof {
                    if usage == PathUse::Listing {
                        crate::des::utf16::lemma_utf16_of_push(dir, '*');
                    }
                }
                return Err(e);
            },
        }
    }
    assert(name@ == utf16_of(dir));
    if usage == PathUse::Listing {
        proof {
            crate::des::utf16::lemma_utf16_of_push(dir, '*');
            assert(crate::des::utf16::char_utf16('*') =~= seq![0x2Au16]);
        }
        name.push('*')?;
    }
    Ok(name)
}

/// What `RFs::Entry` or a `CDir` knows about one file or directory: the attribute bits
/// and the size word.
#[derive(Debug, Clone, Copy, PartialEq, Eq, Structural)]
pub struct Entry {
    attributes: u32,
    size_word: u32,
}

impl Entry {
    /// The attribute bits, for contracts.
    pub closed spec fn spec_attributes(self) -> u32 {
        self.attributes
    }

    /// The size word, for contracts.
    pub closed spec fn spec_size_word(self) -> u32 {
        self.size_word
    }

    /// The entry a `TEntry`'s `iAtt` and `iSize` words describe.
    pub fn from_words(attributes: u32, size_word: u32) -> (e: Self)
        ensures
            e.spec_attributes() == attributes,
            e.spec_size_word() == size_word,
    {
        Entry { attributes, size_word }
    }

    /// The `KEntryAtt*` bits (`iAtt`).
    pub fn attributes(&self) -> (bits: u32)
        ensures
            bits == self.spec_attributes(),
    {
        self.attributes
    }

    /// The size in bytes (`iSize`), read unsigned as `f32file.h` prescribes for files
    /// over 2 GB.
    pub fn size(&self) -> (size: u64)
        ensures
            size == self.spec_size_word(),
    {
        self.size_word as u64
    }

    /// Whether the entry is a directory (`KEntryAttDir`).
    pub fn is_dir(&self) -> (dir: bool)
        ensures
            dir == (self.spec_attributes() & KENTRY_ATT_DIR != 0),
    {
        self.attributes & KENTRY_ATT_DIR != 0
    }

    /// Whether the entry is a volume label (`KEntryAttVolume`), which is neither a file
    /// nor a directory.
    pub fn is_volume(&self) -> (volume: bool)
        ensures
            volume == (self.spec_attributes() & KENTRY_ATT_VOLUME != 0),
    {
        self.attributes & KENTRY_ATT_VOLUME != 0
    }

    /// Whether the entry is an ordinary file: not a directory and not a volume label.
    pub fn is_file(&self) -> (file: bool)
        ensures
            file == (self.spec_attributes() & (KENTRY_ATT_DIR | KENTRY_ATT_VOLUME) == 0),
            file == (self.spec_attributes() & KENTRY_ATT_DIR == 0 && self.spec_attributes()
                & KENTRY_ATT_VOLUME == 0),
    {
        let att = self.attributes;
        assert((att & (0x10u32 | 0x08u32) == 0) == (att & 0x10u32 == 0 && att & 0x08u32 == 0))
            by (bit_vector);
        !self.is_dir() && !self.is_volume()
    }
}

/// Whether a directory entry's name is `.` or `..`, which a listing skips.
pub fn is_dot_name(units: &[u16]) -> (dot: bool)
    ensures
        dot == (units@ == seq![0x2Eu16] || units@ == seq![0x2Eu16, 0x2Eu16]),
{
    let n = units.len();
    if n == 1 {
        let dot = units[0] == 0x2E;
        assert(dot == (units@ =~= seq![0x2Eu16]));
        assert(units@ != seq![0x2Eu16, 0x2Eu16]);
        dot
    } else if n == 2 {
        let dot = units[0] == 0x2E && units[1] == 0x2E;
        assert(dot == (units@ =~= seq![0x2Eu16, 0x2Eu16]));
        assert(units@ != seq![0x2Eu16]);
        dot
    } else {
        assert(units@.len() != 1 && units@.len() != 2);
        false
    }
}

/// A file size as the file server's signed `TInt` word reports it, read unsigned: a
/// file above 2 GB is the case `f32file.h` says to read as unsigned.
pub fn size_from_word(word: i32) -> (size: u64)
    ensures
        size == (if word >= 0 {
            word as int
        } else {
            word + 0x1_0000_0000
        }),
{
    if word >= 0 {
        word as u64
    } else {
        (word as i64 + 0x1_0000_0000) as u64
    }
}

/// A size `RFile::SetSize` can take: `KErrTooBig` for one a `TInt` cannot express.
pub fn size_to_word(size: u64) -> (r: Result<i32>)
    ensures
        size <= i32::MAX ==> r == Ok::<i32, SymbianError>(size as i32),
        size > i32::MAX ==> r == Err::<i32, SymbianError>(error_of(ErrorKind::TooBig)),
{
    if size > i32::MAX as u64 {
        return Err(SymbianError::of(ErrorKind::TooBig));
    }
    Ok(size as i32)
}

/// A position `RFile::Read(TInt aPos, TDes8&)` can take: `KErrTooBig` above `i32::MAX`.
pub fn position_to_word(at: u32) -> (r: Result<i32>)
    ensures
        at <= i32::MAX ==> r == Ok::<i32, SymbianError>(at as i32),
        at > i32::MAX ==> r == Err::<i32, SymbianError>(error_of(ErrorKind::TooBig)),
{
    if at > i32::MAX as u32 {
        return Err(SymbianError::of(ErrorKind::TooBig));
    }
    Ok(at as i32)
}

/// What a file-server call that returns nothing but its code means: `Ok` for
/// `KErrNone` or any positive code, the error otherwise.
pub fn unit_result(code: i32) -> (r: Result<()>)
    ensures
        r is Ok <==> checked(code) is Ok,
        r is Err ==> r == Err::<(), SymbianError>(checked(code)->Err_0),
{
    match crate::error::check(code) {
        Ok(_) => Ok(()),
        Err(e) => Err(e),
    }
}

} // verus!
