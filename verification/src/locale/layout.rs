//! The compiled strings file, as symdev's own `rcomp` writes it — and nothing else.
//!
//! | offset | bytes | what |
//! |---|---|---|
//! | 0 | 16 | UID1 `0x101f4a6b`, UID2, UID3, their CRC |
//! | 16 | 1 | flags: `0x01`, "UID3 is the `NAME`" |
//! | 17 | 2 | the largest resource's size, little-endian |
//! | 19 | ⌈n/8⌉ | one bit per resource, set when it is stored packed |
//! | … | | the resources, back to back |
//! | end − 2(n+1) | 2(n+1) | `u16` offsets: entry *k* starts resource *k*+1, entry *n* is the index's own offset |
//!
//! So the file's last two bytes locate the index and give *n*. A string resource is a
//! `BUF8`, which is never compressed, so every packed bit must be clear.
//!
//! Anything else — another UID1, another flag, a packed resource, an index that points
//! outside the file or backwards — is [`Unreadable`], naming what was found.
use vstd::prelude::*;
use vstd::std_specs::bits::u8_trailing_zeros;
use vstd::std_specs::convert::FromSpec;

verus! {

/// What in a strings file this reader does not accept.
#[derive(Clone, Copy, Debug, PartialEq, Eq, Structural)]
pub enum Unreadable {
    /// Too short for the header and the index's last entry.
    TooShort { size: u32 },
    /// A first UID other than the one our `rcomp` writes.
    Uid1 { found: u32 },
    /// A flag byte other than `0x01`.
    Flags { found: u8 },
    /// The index offset in the last two bytes leaves no room for a whole index.
    Index { at: u32, size: u32 },
    /// A resource stored packed (compressed Unicode), which no `BUF8` string is.
    Packed { resource: u32 },
    /// A resource number the file does not have.
    NoResource { resource: u16, count: u32 },
    /// An index entry pair that runs backwards or past the index.
    Entry { resource: u16, start: u32, end: u32 },
    /// The file ended before the bytes the layout promised.
    Short { at: u32, wanted: u32 },
}

/// What a read of `wanted` bytes at `at` gives from a file holding `contents`: the
/// bytes, or [`Unreadable::Short`] when the file ends first.
pub open spec fn read_spec(contents: Seq<u8>, at: int, wanted: int) -> Result<Seq<u8>, Unreadable> {
    if at + wanted <= contents.len() {
        Ok(contents.subrange(at, at + wanted))
    } else {
        Err(Unreadable::Short { at: at as u32, wanted: wanted as u32 })
    }
}

/// A file read at absolute positions.
///
/// The contract speaks of the file's `contents`, and only of a reader that is `exact`:
/// one whose reads inside the contents succeed with exactly the bytes stored there, and
/// whose every other read fails with [`Unreadable::Short`]. Every reader in this library
/// is exact. A reader implemented outside verified code keeps the defaults, is not
/// exact, and nothing is claimed of what it reads.
pub trait ReadAt {
    /// The I/O error, and what an [`Unreadable`] becomes.
    type Error: From<Unreadable>;

    /// The bytes the file holds.
    open spec fn contents(&self) -> Seq<u8> {
        Seq::empty()
    }

    /// Whether [`ReadAt::contents`] is what this reader reads.
    open spec fn exact(&self) -> bool {
        false
    }

    /// Fills all of `buf` from `at`; a file that ends first is [`Unreadable::Short`].
    fn read_exact_at(&self, at: u32, buf: &mut [u8]) -> (r: Result<(), Self::Error>)
        ensures
            final(buf)@.len() == old(buf)@.len(),
            self.exact() && r is Ok ==> read_spec(self.contents(), at as int, old(buf)@.len() as int)
                == Ok::<Seq<u8>, Unreadable>(final(buf)@),
            self.exact() ==> (r is Ok <==> read_spec(
                self.contents(),
                at as int,
                old(buf)@.len() as int,
            ) is Ok),
            self.exact() && r is Err && <Self::Error as FromSpec<Unreadable>>::obeys_from_spec()
                ==> r->Err_0 == <Self::Error as FromSpec<Unreadable>>::from_spec(
                Unreadable::Short { at, wanted: old(buf)@.len() as u32 },
            ),
    ;
}

/// Where one resource's bytes are.
#[derive(Clone, Copy, Debug, PartialEq, Eq, Structural)]
pub struct Span {
    pub at: u32,
    pub len: u32,
}

/// `RscCompiled::UID1`.
pub const UID1: u32 = 0x101f_4a6b;

/// `RscCompiled::FLAG_UID3_FROM_NAME`, the only flag the strings source produces.
pub const FLAGS: u8 = 0x01;

/// UIDs and CRC, flags, largest size.
pub const HEADER: u32 = 19;

/// A little-endian `u16`.
pub open spec fn le16(b0: u8, b1: u8) -> u32 {
    (b0 + b1 * 256) as u32
}

/// A little-endian `u32` from the first four bytes.
pub open spec fn le32(b: Seq<u8>) -> u32 {
    (b[0] + b[1] * 0x100 + b[2] * 0x1_0000 + b[3] * 0x100_0000) as u32
}

/// The bytes of the packed bitmap for `count` resources.
pub open spec fn bitmap_len(count: int) -> int {
    (count + 7) / 8
}

/// The first position from `j` on whose byte is not zero, or the length when none is.
pub open spec fn first_set_from(piece: Seq<u8>, j: int) -> int
    decreases piece.len() - j,
{
    if j >= piece.len() {
        piece.len() as int
    } else if piece[j] != 0 {
        j
    } else {
        first_set_from(piece, j + 1)
    }
}

/// The bitmap checked four bytes at a time from byte `done` of `bytes`: the first set
/// bit, as the resource it marks, or a file that ends inside the bitmap.
pub open spec fn packed_scan(contents: Seq<u8>, bytes: int, done: int) -> Result<(), Unreadable>
    decreases bytes - done,
{
    if done >= bytes {
        Ok(())
    } else {
        let n = if bytes - done < 4 {
            bytes - done
        } else {
            4
        };
        match read_spec(contents, HEADER + done, n) {
            Err(e) => Err(e),
            Ok(piece) => {
                let i = first_set_from(piece, 0);
                if i < n {
                    Err(
                        Unreadable::Packed {
                            resource: ((done + i) * 8 + u8_trailing_zeros(piece[i]) + 1) as u32,
                        },
                    )
                } else {
                    packed_scan(contents, bytes, done + n)
                }
            },
        }
    }
}

/// What reading a strings file of `size` bytes holding `contents` gives: where its index
/// is and how many resources it has, or the first thing found wrong, in the order the
/// reader looks.
pub open spec fn layout_spec(contents: Seq<u8>, size: u32) -> Result<(u32, u32), Unreadable> {
    if size < HEADER + 2 {
        Err(Unreadable::TooShort { size })
    } else {
        match read_spec(contents, 0, HEADER as int) {
            Err(e) => Err(e),
            Ok(head) => if le32(head) != UID1 {
                Err(Unreadable::Uid1 { found: le32(head) })
            } else if head[16] != FLAGS {
                Err(Unreadable::Flags { found: head[16] })
            } else {
                match read_spec(contents, size - 2, 2) {
                    Err(e) => Err(e),
                    Ok(last) => {
                        let index_at = le16(last[0], last[1]);
                        let tail = size - index_at;
                        if tail < 2 || tail % 2 != 0 {
                            Err(Unreadable::Index { at: index_at, size })
                        } else {
                            let count = tail / 2 - 1;
                            if index_at < HEADER + bitmap_len(count) {
                                Err(Unreadable::Index { at: index_at, size })
                            } else {
                                match packed_scan(contents, bitmap_len(count), 0) {
                                    Err(e) => Err(e),
                                    Ok(_) => Ok((index_at, count as u32)),
                                }
                            }
                        }
                    },
                }
            },
        }
    }
}

/// Where resource `resource` is, as the index entries of a file with its index at
/// `index_at` and `count` resources give it.
pub open spec fn span_spec(contents: Seq<u8>, index_at: u32, count: u32, resource: u16) -> Result<
    Span,
    Unreadable,
> {
    if resource == 0 || resource > count {
        Err(Unreadable::NoResource { resource, count })
    } else {
        match read_spec(contents, index_at + 2 * (resource - 1), 4) {
            Err(e) => Err(e),
            Ok(entries) => {
                let start = le16(entries[0], entries[1]);
                let end = le16(entries[2], entries[3]);
                if start > end || end > index_at || start < HEADER {
                    Err(Unreadable::Entry { resource, start, end })
                } else {
                    Ok(Span { at: start, len: (end - start) as u32 })
                }
            },
        }
    }
}

/// Where resource `resource` is, from the index of a file with its index at `index_at`
/// and `count` resources, already read into memory: the bytes from `index_at` on.
pub open spec fn span_in_index_spec(index: Seq<u8>, index_at: u32, count: u32, resource: u16) -> Result<
    Span,
    Unreadable,
> {
    if resource == 0 || resource > count {
        Err(Unreadable::NoResource { resource, count })
    } else {
        let at = 2 * (resource - 1);
        if at + 4 > index.len() {
            Err(Unreadable::Short { at: (index_at + at) as u32, wanted: 4 })
        } else {
            let start = le16(index[at], index[at + 1]);
            let end = le16(index[at + 2], index[at + 3]);
            if start > end || end > index_at || start < HEADER {
                Err(Unreadable::Entry { resource, start, end })
            } else {
                Ok(Span { at: start, len: (end - start) as u32 })
            }
        }
    }
}

/// The index read once answers every span as the file itself would.
pub proof fn law_index_answers_spans(
    contents: Seq<u8>,
    index_at: u32,
    count: u32,
    resource: u16,
    index: Seq<u8>,
)
    requires
        read_spec(contents, index_at as int, 2 * (count + 1)) == Ok::<Seq<u8>, Unreadable>(index),
    ensures
        span_in_index_spec(index, index_at, count, resource) == span_spec(
            contents,
            index_at,
            count,
            resource,
        ),
{
    if resource != 0 && resource <= count {
        let at = 2 * (resource - 1);
        let entries = contents.subrange(index_at + at, index_at + at + 4);
        assert(entries[0] == index[at]);
        assert(entries[1] == index[at + 1]);
        assert(entries[2] == index[at + 2]);
        assert(entries[3] == index[at + 3]);
    }
}

/// A strings file that reads has its index at the very end: `2(n+1)` bytes running to
/// the end of the file, after the header and the packed bitmap.
pub proof fn law_index_at_end(contents: Seq<u8>, size: u32)
    requires
        layout_spec(contents, size) is Ok,
    ensures
        ({
            let (index_at, count) = layout_spec(contents, size)->Ok_0;
            &&& index_at + 2 * (count + 1) == size
            &&& index_at >= HEADER + bitmap_len(count as int)
        }),
{
}

/// A resource's bytes lie after the header and before the index.
pub proof fn law_span_inside(contents: Seq<u8>, index_at: u32, count: u32, resource: u16)
    requires
        span_spec(contents, index_at, count, resource) is Ok,
    ensures
        ({
            let span = span_spec(contents, index_at, count, resource)->Ok_0;
            &&& HEADER <= span.at
            &&& span.at + span.len <= index_at
        }),
{
}

/// A strings file checked once: where its index is and how many resources it has.
#[derive(Clone, Copy, Debug, PartialEq, Eq, Structural)]
pub struct StringsLayout {
    index_at: u32,
    count: u32,
}

/// The failure a reader reports for an `Unreadable`.
fn unreadable<E: From<Unreadable>>(u: Unreadable) -> (e: E)
    ensures
        <E as FromSpec<Unreadable>>::obeys_from_spec() ==> e == <E as FromSpec<
            Unreadable,
        >>::from_spec(u),
{
    E::from(u)
}

impl StringsLayout {
    /// The index sits where a 16-bit offset can point, and the count fits the file.
    #[verifier::type_invariant]
    closed spec fn wf(self) -> bool {
        &&& self.index_at <= 0xffff
        &&& self.count < u32::MAX / 2
    }

    /// Where the index is.
    pub closed spec fn spec_index_at(self) -> u32 {
        self.index_at
    }

    /// How many resources there are.
    pub closed spec fn spec_count(self) -> u32 {
        self.count
    }

    /// Reads and checks the header, the index position and every packed bit of a file
    /// of `size` bytes. Three reads and one per 32 resources; nothing is kept but two
    /// numbers.
    pub fn read<R: ReadAt>(file: &R, size: u32) -> (r: Result<Self, R::Error>)
        ensures
            size < HEADER + 2 ==> r is Err,
            size < HEADER + 2 && <R::Error as FromSpec<Unreadable>>::obeys_from_spec() ==> r->Err_0
                == <R::Error as FromSpec<Unreadable>>::from_spec(Unreadable::TooShort { size }),
            r matches Ok(l) ==> l.spec_index_at() + 2 * (l.spec_count() + 1) == size
                && l.spec_index_at() >= HEADER + bitmap_len(l.spec_count() as int),
            r matches Ok(l) ==> (file.exact() ==> layout_spec(file.contents(), size) == Ok::<
                (u32, u32),
                Unreadable,
            >((l.spec_index_at(), l.spec_count()))),
            file.exact() ==> (r is Ok <==> layout_spec(file.contents(), size) is Ok),
            file.exact() && r is Err && <R::Error as FromSpec<Unreadable>>::obeys_from_spec()
                ==> r->Err_0 == <R::Error as FromSpec<Unreadable>>::from_spec(
                layout_spec(file.contents(), size)->Err_0,
            ),
    {
        if size < HEADER + 2 {
            return Err(unreadable(Unreadable::TooShort { size }));
        }
        let mut head = [0u8; 19];
        match file.read_exact_at(0, &mut head) {
            Ok(()) => {},
            Err(e) => {
                return Err(e);
            },
        }
        let uid1 = head[0] as u32 + head[1] as u32 * 0x100 + head[2] as u32 * 0x1_0000
            + head[3] as u32 * 0x100_0000;
        if uid1 != UID1 {
            return Err(unreadable(Unreadable::Uid1 { found: uid1 }));
        }
        if head[16] != FLAGS {
            return Err(unreadable(Unreadable::Flags { found: head[16] }));
        }
        let mut last = [0u8; 2];
        match file.read_exact_at(size - 2, &mut last) {
            Ok(()) => {},
            Err(e) => {
                return Err(e);
            },
        }
        let index_at = last[0] as u32 + last[1] as u32 * 256;
        let bad_index = Unreadable::Index { at: index_at, size };
        if index_at > size || size - index_at < 2 || (size - index_at) % 2 != 0 {
            return Err(unreadable(bad_index));
        }
        let count = (size - index_at) / 2 - 1;
        if index_at < HEADER + (count + 7) / 8 {
            return Err(unreadable(bad_index));
        }
        let layout = StringsLayout { index_at, count };
        match layout.check_unpacked(file) {
            Ok(()) => {},
            Err(e) => {
                return Err(e);
            },
        }
        Ok(layout)
    }

    /// Every packed bit clear, read in 4-byte pieces so the stack stays small.
    pub fn check_unpacked<R: ReadAt>(&self, file: &R) -> (r: Result<(), R::Error>)
        ensures
            file.exact() && r is Ok ==> packed_scan(
                file.contents(),
                bitmap_len(self.spec_count() as int),
                0,
            ) is Ok,
            file.exact() ==> (r is Ok <==> packed_scan(
                file.contents(),
                bitmap_len(self.spec_count() as int),
                0,
            ) is Ok),
            file.exact() && r is Err && <R::Error as FromSpec<Unreadable>>::obeys_from_spec()
                ==> r->Err_0 == <R::Error as FromSpec<Unreadable>>::from_spec(
                packed_scan(file.contents(), bitmap_len(self.spec_count() as int), 0)->Err_0,
            ),
    {
        proof {
            use_type_invariant(self);
        }
        let bytes = (self.count + 7) / 8;
        let ghost whole = packed_scan(file.contents(), bytes as int, 0);
        let mut done: u32 = 0;
        while done < bytes
            invariant
                bytes == bitmap_len(self.spec_count() as int),
                bytes <= u32::MAX / 8,
                done <= bytes,
                whole == packed_scan(file.contents(), bytes as int, 0),
                file.exact() ==> whole == packed_scan(file.contents(), bytes as int, done as int),
            decreases bytes - done,
        {
            let n: u32 = if bytes - done < 4 {
                bytes - done
            } else {
                4
            };
            let mut storage = [0u8; 4];
            let (four, _) = storage.split_at_mut(n as usize);
            match file.read_exact_at(HEADER + done, four) {
                Ok(()) => {},
                Err(e) => {
                    return Err(e);
                },
            }
            let ghost piece = four@;
            assert(file.exact() ==> read_spec(file.contents(), HEADER + done, n as int) == Ok::<
                Seq<u8>,
                Unreadable,
            >(piece));
            let mut i: u32 = 0;
            while i < n
                invariant
                    n <= 4,
                    i <= n,
                    done + n <= bytes,
                    bytes <= u32::MAX / 8,
                    n == (if bytes - done < 4 { bytes - done } else { 4 }),
                    file.exact() ==> whole == packed_scan(file.contents(), bytes as int, done as int),
                    whole == packed_scan(file.contents(), bytes as int, 0),
                    bytes == bitmap_len(self.spec_count() as int),
                    file.exact() ==> read_spec(file.contents(), HEADER + done, n as int) == Ok::<
                        Seq<u8>,
                        Unreadable,
                    >(piece),
                    piece == four@,
                    four@.len() == n,
                    first_set_from(piece, 0) == first_set_from(piece, i as int),
                decreases n - i,
            {
                if four[i as usize] != 0 {
                    let bit = four[i as usize].trailing_zeros();
                    proof {
                        vstd::std_specs::bits::axiom_u8_trailing_zeros(four[i as int]);
                    }
                    let resource = (done + i) * 8 + bit + 1;
                    assert(first_set_from(piece, i as int) == i as int);
                    assert(file.exact() ==> whole == Err::<(), Unreadable>(
                        Unreadable::Packed { resource },
                    ));
                    return Err(unreadable(Unreadable::Packed { resource }));
                }
                i = i + 1;
            }
            done = done + n;
        }
        Ok(())
    }

    /// How many resources the file has.
    pub fn count(&self) -> (n: u32)
        ensures
            n == self.spec_count(),
    {
        self.count
    }

    /// Where the index is: `2(n+1)` bytes running to the end of the file.
    pub fn index(&self) -> (s: Span)
        ensures
            s == (Span { at: self.spec_index_at(), len: (2 * (self.spec_count() + 1)) as u32 }),
    {
        proof {
            use_type_invariant(self);
        }
        Span { at: self.index_at, len: 2 * (self.count + 1) }
    }

    /// Where resource `resource` (1-based, as resource ids count) is: one read of its
    /// two index entries.
    pub fn span<R: ReadAt>(&self, file: &R, resource: u16) -> (r: Result<Span, R::Error>)
        ensures
            resource == 0 || resource > self.spec_count() ==> r is Err,
            (resource == 0 || resource > self.spec_count()) && <R::Error as FromSpec<
                Unreadable,
            >>::obeys_from_spec() ==> r->Err_0 == <R::Error as FromSpec<Unreadable>>::from_spec(
                Unreadable::NoResource { resource, count: self.spec_count() },
            ),
            r matches Ok(s) ==> HEADER <= s.at && s.at + s.len <= self.spec_index_at(),
            r matches Ok(s) ==> (file.exact() ==> span_spec(
                file.contents(),
                self.spec_index_at(),
                self.spec_count(),
                resource,
            ) == Ok::<Span, Unreadable>(s)),
            file.exact() ==> (r is Ok <==> span_spec(
                file.contents(),
                self.spec_index_at(),
                self.spec_count(),
                resource,
            ) is Ok),
            file.exact() && r is Err && <R::Error as FromSpec<Unreadable>>::obeys_from_spec()
                ==> r->Err_0 == <R::Error as FromSpec<Unreadable>>::from_spec(
                span_spec(file.contents(), self.spec_index_at(), self.spec_count(), resource)->Err_0,
            ),
    {
        proof {
            use_type_invariant(self);
        }
        if resource == 0 || resource as u32 > self.count {
            let count = self.count;
            return Err(unreadable(Unreadable::NoResource { resource, count }));
        }
        let mut entries = [0u8; 4];
        let at = self.index_at + 2 * (resource as u32 - 1);
        match file.read_exact_at(at, &mut entries) {
            Ok(()) => {},
            Err(e) => {
                return Err(e);
            },
        }
        let start = entries[0] as u32 + entries[1] as u32 * 256;
        let end = entries[2] as u32 + entries[3] as u32 * 256;
        if start > end || end > self.index_at || start < HEADER {
            return Err(unreadable(Unreadable::Entry { resource, start, end }));
        }
        Ok(Span { at: start, len: end - start })
    }

    /// Where resource `resource` is, from the index already read into memory: no read of
    /// the file at all.
    pub fn span_in_index(&self, index: &[u8], resource: u16) -> (r: Result<Span, Unreadable>)
        ensures
            r == span_in_index_spec(index@, self.spec_index_at(), self.spec_count(), resource),
    {
        proof {
            use_type_invariant(self);
        }
        if resource == 0 || resource as u32 > self.count {
            let count = self.count;
            return Err(Unreadable::NoResource { resource, count });
        }
        let at = 2 * (resource as usize - 1);
        if index.len() < 4 || at > index.len() - 4 {
            return Err(Unreadable::Short { at: self.index_at + at as u32, wanted: 4 });
        }
        let start = index[at] as u32 + index[at + 1] as u32 * 256;
        let end = index[at + 2] as u32 + index[at + 3] as u32 * 256;
        if start > end || end > self.index_at || start < HEADER {
            return Err(Unreadable::Entry { resource, start, end });
        }
        Ok(Span { at: start, len: end - start })
    }
}

} // verus!
