//! Localised strings, read on demand from the nearest-language strings file.
//!
//! symdev compiles `locales/<language>.toml` into `<app>_strings.rsc` and one
//! `<app>_strings.rNN` per language. Each string is a `BUF8` resource holding the
//! value's UTF-8, and key *i* in byte order is resource index `2 + i` (index 1 is the
//! signature). An application names a string as a [`Str`] and asks for its text with
//! [`Str::get`] on the open strings file.
use vstd::prelude::*;
use vstd::std_specs::convert::FromSpec;
use vstd::utf8::valid_utf8;

use super::heap_bytes::HeapBytes;
use super::layout::{ReadAt, Span, StringsLayout, Unreadable, layout_spec, read_spec, span_spec};
use super::text::Text;
use crate::des::{Buf16, MAX_LENGTH, PtrC16};
use crate::error::{Result, SymbianError, error_of};
use crate::error_kind::ErrorKind;

verus! {

broadcast use crate::error::group_error;

/// `KMaxFileName`: the longest path the file server accepts.
pub const MAX_FILE_NAME: usize = 0x100;

/// Everything the reader does not accept is a file symdev did not write, so it is
/// `KErrCorrupt`; which case it was is [`Unreadable`]'s.
impl From<Unreadable> for SymbianError {
    fn from(u: Unreadable) -> (e: Self) {
        SymbianError::of(ErrorKind::Corrupt)
    }
}

impl vstd::std_specs::convert::FromSpecImpl<Unreadable> for SymbianError {
    open spec fn obeys_from_spec() -> bool {
        true
    }

    open spec fn from_spec(u: Unreadable) -> SymbianError {
        error_of(ErrorKind::Corrupt)
    }
}

/// A strings file already in memory: every read inside it succeeds, every other one
/// is `Short`.
impl ReadAt for [u8] {
    type Error = SymbianError;

    open spec fn contents(&self) -> Seq<u8> {
        self@
    }

    open spec fn exact(&self) -> bool {
        true
    }

    fn read_exact_at(&self, at: u32, buf: &mut [u8]) -> (r: core::result::Result<(), SymbianError>) {
        let wanted = buf.len();
        let size = self.len();
        if at as usize > size || wanted > size - at as usize {
            return Err(SymbianError::from(Unreadable::Short { at, wanted: wanted as u32 }));
        }
        let start = at as usize;
        let mut i: usize = 0;
        while i < wanted
            invariant
                wanted == buf@.len(),
                wanted == old(buf)@.len(),
                size == self@.len(),
                start + wanted <= size,
                i <= wanted,
                buf@.take(i as int) == self@.subrange(start as int, start + i),
            decreases wanted - i,
        {
            buf[i] = self[start + i];
            proof {
                assert(buf@.take(i + 1) =~= self@.subrange(start as int, start + i + 1));
            }
            i = i + 1;
        }
        proof {
            assert(buf@ =~= buf@.take(wanted as int));
        }
        Ok(())
    }
}

/// A strings file held in memory as a vector of its bytes.
impl ReadAt for Vec<u8> {
    type Error = SymbianError;

    open spec fn contents(&self) -> Seq<u8> {
        self@
    }

    open spec fn exact(&self) -> bool {
        true
    }

    fn read_exact_at(&self, at: u32, buf: &mut [u8]) -> (r: core::result::Result<(), SymbianError>) {
        self.as_slice().read_exact_at(at, buf)
    }
}

/// One localised string: its resource index in `<app>_strings.rsc`.
#[derive(Clone, Copy, Debug, PartialEq, Eq, Structural)]
pub struct Str(u16);

/// The open strings file: the reader, where things are in it, and the index — one heap
/// cell of `2(n+1)` bytes, so a [`Str::get`] is one read of the file.
pub struct OpenStrings<R: ReadAt<Error = SymbianError>> {
    file: R,
    layout: StringsLayout,
    index: HeapBytes,
}

/// What opening a strings file of `size` bytes holding `contents` gives: where its index
/// is, how many resources it has, and the index itself; `KErrCorrupt` for a file the
/// reader does not accept, `KErrTooBig` for an index no cell can hold.
pub open spec fn open_spec(contents: Seq<u8>, size: u32) -> Result<(u32, u32, Seq<u8>)> {
    match layout_spec(contents, size) {
        Err(_) => Err(error_of(ErrorKind::Corrupt)),
        Ok((index_at, count)) => if 2 * (count + 1) > i32::MAX {
            Err(error_of(ErrorKind::TooBig))
        } else {
            match read_spec(contents, index_at as int, 2 * (count + 1)) {
                Err(_) => Err(error_of(ErrorKind::Corrupt)),
                Ok(index) => Ok((index_at, count, index)),
            }
        },
    }
}

impl<R: ReadAt<Error = SymbianError>> OpenStrings<R> {
    /// The index held is the file's own, from where the layout says it starts.
    #[verifier::type_invariant]
    closed spec fn wf(self) -> bool {
        self.file.exact() ==> read_spec(
            self.file.contents(),
            self.layout.spec_index_at() as int,
            2 * (self.layout.spec_count() + 1),
        ) == Ok::<Seq<u8>, Unreadable>(self.index@)
    }

    /// The file, for contracts.
    pub closed spec fn spec_file(&self) -> &R {
        &self.file
    }

    /// The checked layout, for contracts.
    pub closed spec fn spec_layout(&self) -> StringsLayout {
        self.layout
    }

    /// The index held in memory, for contracts.
    pub closed spec fn spec_index(&self) -> Seq<u8> {
        self.index@
    }

    /// Checks the layout of a strings file of `size` bytes once, reads its index, and
    /// keeps the file open for every later [`Str::get`].
    pub fn open(file: R, size: u32) -> (r: Result<Self>)
        ensures
            r matches Ok(o) ==> *o.spec_file() == file && (file.exact() ==> open_spec(
                file.contents(),
                size,
            ) == Ok::<(u32, u32, Seq<u8>), SymbianError>(
                (o.spec_layout().spec_index_at(), o.spec_layout().spec_count(), o.spec_index()),
            )),
            file.exact() && r is Err ==> r == Err::<OpenStrings<R>, SymbianError>(
                open_spec(file.contents(), size)->Err_0,
            ),
            file.exact() ==> (r is Ok <==> open_spec(file.contents(), size) is Ok),
    {
        let layout = match StringsLayout::read(&file, size) {
            Ok(layout) => layout,
            Err(e) => {
                return Err(e);
            },
        };
        let index = match HeapBytes::read(&file, layout.index()) {
            Ok(index) => index,
            Err(e) => {
                proof {
                    if file.exact() {
                        super::layout::law_index_at_end(file.contents(), size);
                    }
                }
                return Err(e);
            },
        };
        proof {
            if file.exact() {
                super::layout::law_index_at_end(file.contents(), size);
            }
        }
        Ok(OpenStrings { file, layout, index })
    }
}

/// What [`Str::get`] gives for resource `index` of a file holding `contents`, with its
/// index at `index_at` and `count` resources: the string's UTF-8, or the error.
pub open spec fn get_spec(contents: Seq<u8>, index_at: u32, count: u32, index: u16) -> Result<
    Seq<u8>,
> {
    if index < 2 {
        Err(error_of(ErrorKind::Argument))
    } else {
        match span_spec(contents, index_at, count, index) {
            Err(_) => Err(error_of(ErrorKind::Corrupt)),
            Ok(span) => match read_spec(contents, span.at as int, span.len as int) {
                Err(_) => Err(error_of(ErrorKind::Corrupt)),
                Ok(bytes) => if valid_utf8(bytes) {
                    Ok(bytes)
                } else {
                    Err(error_of(ErrorKind::Corrupt))
                },
            },
        }
    }
}

impl Str {
    /// The resource index, for contracts.
    pub closed spec fn spec_index(self) -> u16 {
        self.0
    }

    /// The string at resource index `index` (the first string is 2).
    pub fn at(index: u16) -> (s: Self)
        ensures
            s.spec_index() == index,
    {
        Str(index)
    }

    /// Reads the string from the open strings file.
    ///
    /// Errors: `KErrArgument` for index 0 or 1, which no generated constant has;
    /// `KErrCorrupt` when the index does not have this resource or the resource is not
    /// UTF-8 — rebuild with symdev — and whatever the file's own reads report.
    pub fn get<R: ReadAt<Error = SymbianError>>(self, strings: &OpenStrings<R>) -> (r: Result<Text>)
        ensures
            ({
                let contents = strings.spec_file().contents();
                let layout = strings.spec_layout();
                let expected = get_spec(
                    contents,
                    layout.spec_index_at(),
                    layout.spec_count(),
                    self.spec_index(),
                );
                &&& r matches Ok(t) ==> (strings.spec_file().exact() ==> expected == Ok::<
                    Seq<u8>,
                    SymbianError,
                >(t@))
                &&& strings.spec_file().exact() ==> match expected {
                    Ok(bytes) => r is Ok,
                    Err(e) => r == Err::<Text, SymbianError>(e),
                }
                &&& self.spec_index() < 2 ==> r == Err::<Text, SymbianError>(error_of(
                    ErrorKind::Argument,
                ))
            }),
    {
        if self.0 < 2 {
            return Err(SymbianError::of(ErrorKind::Argument));
        }
        proof {
            use_type_invariant(strings);
            if strings.file.exact() {
                super::layout::law_index_answers_spans(
                    strings.file.contents(),
                    strings.layout.spec_index_at(),
                    strings.layout.spec_count(),
                    self.0,
                    strings.index@,
                );
            }
        }
        let span = match strings.layout.span_in_index(strings.index.as_bytes(), self.0) {
            Ok(span) => span,
            Err(u) => {
                return Err(SymbianError::from(u));
            },
        };
        let bytes = match HeapBytes::read(&strings.file, span) {
            Ok(bytes) => bytes,
            Err(e) => {
                return Err(e);
            },
        };
        Text::new(bytes)
    }
}

/// The last position of `unit` in `units`, or `-1`.
pub open spec fn last_index_of(units: Seq<u16>, unit: u16) -> int
    decreases units.len(),
{
    if units.len() == 0 {
        -1
    } else if units.last() == unit {
        units.len() - 1
    } else {
        last_index_of(units.drop_last(), unit)
    }
}

/// `\resource\apps\` in UTF-16.
pub open spec fn apps_dir_spec() -> Seq<u16> {
    seq![
        0x5C, 0x72, 0x65, 0x73, 0x6F, 0x75, 0x72, 0x63, 0x65, 0x5C, 0x61, 0x70, 0x70, 0x73, 0x5C,
    ]
}

/// `_strings.rsc` in UTF-16.
pub open spec fn suffix_spec() -> Seq<u16> {
    seq![0x5F, 0x73, 0x74, 0x72, 0x69, 0x6E, 0x67, 0x73, 0x2E, 0x72, 0x73, 0x63]
}

/// The file name of the executable without its directory and without its extension.
pub open spec fn stem_spec(exe: Seq<u16>) -> Seq<u16> {
    let name = exe.skip(last_index_of(exe, 0x5C) + 1);
    let dot = last_index_of(name, 0x2E);
    if dot >= 0 {
        name.take(dot)
    } else {
        name
    }
}

/// `<drive of exe>\resource\apps\<exe stem>_strings.rsc`, or why there is none:
/// `KErrBadName` for a name with no drive, `KErrOverflow` for a path past
/// `KMaxFileName`.
pub open spec fn strings_path_spec(exe: Seq<u16>) -> core::result::Result<Seq<u16>, ErrorKind> {
    if exe.len() < 2 || exe[1] != 0x3A {
        Err(ErrorKind::BadName)
    } else if stem_spec(exe).len() > MAX_LENGTH {
        Err(ErrorKind::TooBig)
    } else {
        let path = exe.take(2) + apps_dir_spec() + stem_spec(exe) + suffix_spec();
        if path.len() > MAX_FILE_NAME {
            Err(ErrorKind::Overflow)
        } else {
            Ok(path)
        }
    }
}

/// The last position of `unit` in `units`, or `None`.
fn rposition(units: &[u16], unit: u16) -> (r: Option<usize>)
    ensures
        match r {
            Some(i) => i as int == last_index_of(units@, unit) && i < units@.len(),
            None => last_index_of(units@, unit) == -1,
        },
{
    let mut i = units.len();
    assert(units@.take(i as int) =~= units@);
    while i > 0
        invariant
            i <= units@.len(),
            last_index_of(units@, unit) == last_index_of(units@.take(i as int), unit),
        decreases i,
    {
        proof {
            assert(units@.take(i as int).drop_last() =~= units@.take(i - 1));
        }
        if units[i - 1] == unit {
            return Some(i - 1);
        }
        i = i - 1;
    }
    None
}

/// `\resource\apps\`.
fn apps_dir() -> (units: [u16; 15])
    ensures
        units@ == apps_dir_spec(),
{
    let units: [u16; 15] = [
        0x5C, 0x72, 0x65, 0x73, 0x6F, 0x75, 0x72, 0x63, 0x65, 0x5C, 0x61, 0x70, 0x70, 0x73, 0x5C,
    ];
    assert(units@ =~= apps_dir_spec());
    units
}

/// `_strings.rsc`.
fn suffix() -> (units: [u16; 12])
    ensures
        units@ == suffix_spec(),
{
    let units: [u16; 12] = [0x5F, 0x73, 0x74, 0x72, 0x69, 0x6E, 0x67, 0x73, 0x2E, 0x72, 0x73, 0x63];
    assert(units@ =~= suffix_spec());
    units
}

/// `<drive of exe>\resource\apps\<exe stem>_strings.rsc`, from the executable's own file
/// name (`RProcess::FileName`).
pub fn strings_path(exe: &[u16]) -> (r: Result<Buf16<MAX_FILE_NAME>>)
    ensures
        match strings_path_spec(exe@) {
            Ok(path) => r matches Ok(b) && b@ == path,
            Err(kind) => r == Err::<Buf16<MAX_FILE_NAME>, SymbianError>(error_of(kind)),
        },
{
    if exe.len() < 2 || exe[1] != 0x3A {
        return Err(SymbianError::of(ErrorKind::BadName));
    }
    let drive = &exe[0..2];
    let name_at = match rposition(exe, 0x5C) {
        Some(i) => i + 1,
        None => 0,
    };
    let name = &exe[name_at..exe.len()];
    assert(name@ == exe@.skip(last_index_of(exe@, 0x5C) + 1));
    let stem = match rposition(name, 0x2E) {
        Some(dot) => &name[0..dot],
        None => name,
    };
    assert(stem@ == stem_spec(exe@));
    let mut path = Buf16::<MAX_FILE_NAME>::new();
    let drive = PtrC16::new(drive)?;
    path.append_units(drive.units())?;
    let apps = apps_dir();
    path.append_units(apps.as_slice())?;
    let stem = PtrC16::new(stem)?;
    let ghost upto = path@;
    match path.append_units(stem.units()) {
        Ok(()) => {},
        Err(e) => {
            assert(strings_path_spec(exe@) == Err::<Seq<u16>, ErrorKind>(ErrorKind::Overflow));
            return Err(e);
        },
    }
    let sfx = suffix();
    match path.append_units(sfx.as_slice()) {
        Ok(()) => {},
        Err(e) => {
            assert(strings_path_spec(exe@) == Err::<Seq<u16>, ErrorKind>(ErrorKind::Overflow));
            return Err(e);
        },
    }
    Ok(path)
}

} // verus!
