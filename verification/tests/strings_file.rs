use lib::locale::layout::HEADER;
use lib::locale::strings::{strings_path, MAX_FILE_NAME};
use lib::locale::{OpenStrings, Span, Str, StringsLayout, Text};
use lib::locale::heap_bytes::HeapBytes;
use lib::ErrorKind;

/// A strings file as symdev's `rcomp` writes it.
fn strings_file(resources: &[&[u8]]) -> Vec<u8> {
    let n = resources.len();
    let mut f = vec![0x6b, 0x4a, 0x1f, 0x10];
    f.extend_from_slice(&[0u8; 12]);
    f.push(0x01);
    let largest = resources.iter().map(|r| r.len()).max().unwrap_or(0) as u16;
    f.extend_from_slice(&largest.to_le_bytes());
    f.extend(std::iter::repeat(0u8).take((n + 7) / 8));
    let mut starts = Vec::new();
    for r in resources {
        starts.push(f.len() as u16);
        f.extend_from_slice(r);
    }
    let index_at = f.len() as u16;
    for s in starts {
        f.extend_from_slice(&s.to_le_bytes());
    }
    f.extend_from_slice(&index_at.to_le_bytes());
    f
}

fn sample() -> Vec<u8> {
    strings_file(&[b"SIGN", b"Hello", "Привет".as_bytes(), b""])
}

fn layout_kind(bytes: Vec<u8>) -> ErrorKind {
    let size = bytes.len() as u32;
    StringsLayout::read(&bytes, size).err().unwrap().kind()
}

#[test]
fn reads_a_strings_file() {
    let f = sample();
    let size = f.len() as u32;
    let layout = StringsLayout::read(&f, size).unwrap();
    assert_eq!(layout.count(), 4);
    let index = layout.index();
    assert_eq!(index.len, 10);
    assert_eq!(index.at + index.len, size);
    let span = layout.span(&f, 2).unwrap();
    assert_eq!(span, Span { at: HEADER + 1 + 4, len: 5 });
    assert_eq!(&f[span.at as usize..(span.at + span.len) as usize], b"Hello");
    let empty = layout.span(&f, 4).unwrap();
    assert_eq!(empty.len, 0);
}

#[test]
fn gets_strings_by_index() {
    let f = sample();
    let size = f.len() as u32;
    let open = OpenStrings::open(f, size).unwrap();
    assert_eq!(Str::at(2).get(&open).unwrap().as_str(), "Hello");
    assert_eq!(Str::at(3).get(&open).unwrap().as_str(), "Привет");
    assert_eq!(Str::at(4).get(&open).unwrap().as_str(), "");
    assert_eq!(Str::at(0).get(&open).err().unwrap().kind(), ErrorKind::Argument);
    assert_eq!(Str::at(1).get(&open).err().unwrap().kind(), ErrorKind::Argument);
    assert_eq!(Str::at(5).get(&open).err().unwrap().kind(), ErrorKind::Corrupt);
}

#[test]
fn not_utf8_is_corrupt() {
    let f = strings_file(&[b"SIGN", &[0xff, 0xfe]]);
    let size = f.len() as u32;
    let open = OpenStrings::open(f, size).unwrap();
    assert_eq!(Str::at(2).get(&open).err().unwrap().kind(), ErrorKind::Corrupt);
}

#[test]
fn unreadable_files_are_corrupt() {
    assert_eq!(layout_kind(vec![0; 20]), ErrorKind::Corrupt);

    let mut f = sample();
    f[0] = 0;
    assert_eq!(layout_kind(f), ErrorKind::Corrupt);

    let mut f = sample();
    f[16] = 0x02;
    assert_eq!(layout_kind(f), ErrorKind::Corrupt);

    let mut f = sample();
    let size = f.len();
    f[size - 2] = 0xff;
    f[size - 1] = 0xff;
    assert_eq!(layout_kind(f), ErrorKind::Corrupt);

    let mut f = sample();
    let size = f.len();
    let at = (size - 3) as u16;
    f[size - 2..].copy_from_slice(&at.to_le_bytes());
    assert_eq!(layout_kind(f), ErrorKind::Corrupt);

    let mut f = sample();
    f[19] = 0b0000_0100;
    assert_eq!(layout_kind(f), ErrorKind::Corrupt);
}

#[test]
fn spans_are_checked() {
    let f = sample();
    let size = f.len() as u32;
    let layout = StringsLayout::read(&f, size).unwrap();
    assert_eq!(layout.span(&f, 0).err().unwrap().kind(), ErrorKind::Corrupt);
    assert_eq!(layout.span(&f, 5).err().unwrap().kind(), ErrorKind::Corrupt);

    let mut g = f.clone();
    let index_at = g.len() - 10;
    g[index_at + 2] = 0xff;
    g[index_at + 3] = 0x00;
    assert_eq!(layout.span(&g, 2).err().unwrap().kind(), ErrorKind::Corrupt);
    assert_eq!(layout.span(&g, 3).unwrap(), layout.span(&f, 3).unwrap());
}

#[test]
fn a_file_shorter_than_its_size_is_corrupt() {
    let f = sample();
    let size = f.len() as u32 + 8;
    assert_eq!(StringsLayout::read(&f, size).err().unwrap().kind(), ErrorKind::Corrupt);
}

#[test]
fn heap_bytes_and_text() {
    let f = sample();
    let bytes = HeapBytes::read(&f, Span { at: 0, len: 4 }).unwrap();
    assert_eq!(bytes.as_bytes(), &[0x6b, 0x4a, 0x1f, 0x10]);
    assert_eq!(HeapBytes::read(&f, Span { at: 0, len: 0x8000_0000 }).err().unwrap().kind(), ErrorKind::TooBig);
    let past = HeapBytes::read(&f, Span { at: f.len() as u32, len: 1 });
    assert_eq!(past.err().unwrap().kind(), ErrorKind::Corrupt);
    let text = Text::new(HeapBytes::read(&f, Span { at: 24, len: 5 }).unwrap()).unwrap();
    assert_eq!(text.as_str(), "Hello");
    let g = strings_file(&[b"SIGN", &[0xff, 0xfe]]);
    let bad = Text::new(HeapBytes::read(&g, Span { at: 24, len: 2 }).unwrap());
    assert_eq!(bad.err().unwrap().kind(), ErrorKind::Corrupt);
}

fn units(s: &str) -> Vec<u16> {
    s.encode_utf16().collect()
}

#[test]
fn strings_path_from_the_executable() {
    let path = strings_path(&units("C:\\sys\\bin\\hello.exe")).unwrap();
    assert_eq!(path.units(), &units("C:\\resource\\apps\\hello_strings.rsc")[..]);
    let path = strings_path(&units("E:\\sys\\bin\\my.app.exe")).unwrap();
    assert_eq!(path.units(), &units("E:\\resource\\apps\\my.app_strings.rsc")[..]);
    let path = strings_path(&units("Z:noext")).unwrap();
    assert_eq!(path.units(), &units("Z:\\resource\\apps\\Z:noext_strings.rsc")[..]);
    assert_eq!(strings_path(&units("hello.exe")).err().unwrap().kind(), ErrorKind::BadName);
    assert_eq!(strings_path(&units("C")).err().unwrap().kind(), ErrorKind::BadName);
    let long = format!("C:\\{}.exe", "x".repeat(MAX_FILE_NAME));
    assert_eq!(strings_path(&units(&long)).err().unwrap().kind(), ErrorKind::Overflow);
}
