use lib::des::{Buf16, HBuf16, PtrC16, MAX_LENGTH};
use lib::des::{decode_utf16_into, encode_utf16_into, header, utf16_len};
use lib::ErrorKind;

fn units(s: &str) -> Vec<u16> {
    s.encode_utf16().collect()
}

#[test]
fn utf16_len_counts_units_not_chars() {
    assert_eq!(utf16_len(""), 0);
    assert_eq!(utf16_len("abc"), 3);
    assert_eq!(utf16_len("héllo 😀"), 8);
    assert_eq!(utf16_len("Привет"), 6);
}

#[test]
fn encode_writes_units_and_leaves_the_rest() {
    let mut out = [0xffffu16; 6];
    assert_eq!(encode_utf16_into("a😀", &mut out), Ok(3));
    assert_eq!(&out[..3], &units("a😀")[..]);
    assert_eq!(&out[3..], &[0xffff, 0xffff, 0xffff]);
}

#[test]
fn encode_overflow_keeps_the_prefix() {
    let mut out = [0u16; 2];
    let r = encode_utf16_into("abc", &mut out);
    assert_eq!(r.unwrap_err().kind(), ErrorKind::Overflow);
    assert_eq!(out, [0x61, 0x62]);
    let mut one = [0u16; 1];
    assert_eq!(encode_utf16_into("😀", &mut one).unwrap_err().kind(), ErrorKind::Overflow);
    assert_eq!(one, [0xD83D]);
}

#[test]
fn decode_round_trips_encoded_text() {
    for text in ["", "abc", "héllo 😀", "Привет, мир", "\u{10FFFF}\u{FFFF}"] {
        let u = units(text);
        let mut out = [0u8; 64];
        assert_eq!(decode_utf16_into(&u, &mut out), Ok(text));
    }
}

#[test]
fn decode_rejects_unpaired_surrogates() {
    let mut out = [0u8; 16];
    assert_eq!(decode_utf16_into(&[0xD800], &mut out).unwrap_err().kind(), ErrorKind::Argument);
    assert_eq!(decode_utf16_into(&[0xDC00, 0x41], &mut out).unwrap_err().kind(), ErrorKind::Argument);
    assert_eq!(decode_utf16_into(&[0x41, 0xD800, 0x41], &mut out).unwrap_err().kind(), ErrorKind::Argument);
}

#[test]
fn decode_reports_the_first_failure_met() {
    let mut none = [0u8; 0];
    assert_eq!(decode_utf16_into(&[0x41, 0xD800], &mut none).unwrap_err().kind(), ErrorKind::Overflow);
    let mut three = [0u8; 3];
    assert_eq!(decode_utf16_into(&[0x20AC, 0x41], &mut three).unwrap_err().kind(), ErrorKind::Overflow);
    assert_eq!(decode_utf16_into(&[0x20AC], &mut three), Ok("€"));
}

#[test]
fn header_word_packs_type_and_length() {
    assert_eq!(header(0, 3), 0x0000_0003);
    assert_eq!(header(1, 4), 0x1000_0004);
    assert_eq!(header(3, 3), 0x3000_0003);
    assert_eq!(header(3, MAX_LENGTH), 0x3fff_ffff);
}

#[test]
fn buf16_push_str_and_header() {
    let mut b: Buf16<8> = Buf16::new();
    assert_eq!(b.capacity(), 8);
    assert_eq!(b.header_word(), 0x3000_0000);
    b.push_str("abc").unwrap();
    assert_eq!(b.header_word(), 0x3000_0003);
    assert_eq!(b.length(), 3);
    assert_eq!(b.units(), &units("abc")[..]);
    b.push('😀').unwrap();
    assert_eq!(b.length(), 5);
    let mut out = [0u8; 16];
    assert_eq!(b.to_str(&mut out), Ok("abc😀"));
}

#[test]
fn buf16_failed_push_is_not_partial() {
    let mut b: Buf16<4> = Buf16::new();
    b.push_str("ab").unwrap();
    assert_eq!(b.push_str("xyz").unwrap_err().kind(), ErrorKind::Overflow);
    assert_eq!(b.units(), &units("ab")[..]);
    b.push_str("cd").unwrap();
    assert_eq!(b.push('e').unwrap_err().kind(), ErrorKind::Overflow);
    assert_eq!(b.units(), &units("abcd")[..]);
    b.clear();
    assert_eq!(b.length(), 0);
    assert_eq!(b.header_word(), 0x3000_0000);
}

#[test]
fn buf16_append_units_and_num() {
    let mut b: Buf16<8> = Buf16::new();
    b.append_units(&[0x41, 0x42]).unwrap();
    b.append_num(-123).unwrap();
    assert_eq!(b.units(), &units("AB-123")[..]);
    assert_eq!(b.append_num(1000).unwrap_err().kind(), ErrorKind::Overflow);
    assert_eq!(b.units(), &units("AB-123")[..]);
}

#[test]
fn buf16_to_str_overflow() {
    let mut b: Buf16<4> = Buf16::new();
    b.push_str("éé").unwrap();
    let mut out = [0u8; 3];
    assert_eq!(b.to_str(&mut out).unwrap_err().kind(), ErrorKind::Overflow);
}

#[test]
fn hbuf16_grows_to_double() {
    let mut h = HBuf16::with_capacity(2).unwrap();
    assert_eq!(h.header_word(), 0);
    h.push_str("abc").unwrap();
    assert_eq!(h.capacity(), 4);
    assert_eq!(h.header_word(), 3);
    h.push_str("de").unwrap();
    assert_eq!(h.capacity(), 8);
    h.push_str("fghijkl").unwrap();
    assert_eq!(h.capacity(), 16);
    let mut out = [0u8; 32];
    assert_eq!(h.to_str(&mut out), Ok("abcdefghijkl"));
}

#[test]
fn hbuf16_from_str_fits_exactly() {
    let h = HBuf16::from_str("Привет 😀").unwrap();
    assert_eq!(h.capacity(), 9);
    assert_eq!(h.length(), 9);
    assert_eq!(h.units(), &units("Привет 😀")[..]);
}

#[test]
fn hbuf16_too_big() {
    assert_eq!(HBuf16::with_capacity(MAX_LENGTH + 1).err().unwrap().kind(), ErrorKind::TooBig);
    let h = HBuf16::with_capacity(0).unwrap();
    assert_eq!(h.capacity(), 0);
}

#[test]
fn ptrc16_header_and_units() {
    let u = [0x61u16, 0x62, 0x63, 0x64];
    let p = PtrC16::new(&u).unwrap();
    assert_eq!(p.header_word(), 0x1000_0004);
    assert_eq!(p.units(), &u[..]);
}

#[test]
fn literals_widen_ascii() {
    let hello = lib::des::lit(b"Hello from Rust SDK");
    assert_eq!(hello.type_length(), 19);
    assert_eq!(hello.units(), &"Hello from Rust SDK".encode_utf16().collect::<Vec<u16>>()[..]);
    let empty = lib::des::lit(b"");
    assert_eq!(empty.type_length(), 0);
    assert!(empty.units().is_empty());
}

#[test]
fn hbuf16_is_a_fmt_write() {
    let mut h = HBuf16::with_capacity(1).unwrap();
    core::fmt::Write::write_str(&mut h, "grows").unwrap();
    assert_eq!(h.units(), &units("grows")[..]);
    assert!(h.capacity() >= 5);
    core::fmt::Write::write_char(&mut h, '€').unwrap();
    assert_eq!(h.units(), &units("grows€")[..]);
}
