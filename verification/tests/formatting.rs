use lib::des::Buf16;
use lib::fmt::utf16::{encode_utf16, utf16_len};
use lib::fmt::{Arg, Decimal, Sink, Utf16Str};

fn units(s: &str) -> Vec<u16> {
    s.encode_utf16().collect()
}

#[test]
fn decimal_digits() {
    assert_eq!(Decimal::of_u32(0).as_str(), "0");
    assert_eq!(Decimal::of_u32(7).as_str(), "7");
    assert_eq!(Decimal::of_u32(10).as_str(), "10");
    assert_eq!(Decimal::of_u32(u32::MAX).as_str(), "4294967295");
    assert_eq!(Decimal::of_u64(0).as_str(), "0");
    assert_eq!(Decimal::of_u64(u32::MAX as u64 + 1).as_str(), "4294967296");
    assert_eq!(Decimal::of_u64(10_000_000_000).as_str(), "10000000000");
    assert_eq!(Decimal::of_u64(u64::MAX).as_str(), "18446744073709551615");
    for v in [1u64, 9, 99, 12345, 4294967295, 4294967297, 1 << 48, (1 << 63) + 12345] {
        assert_eq!(Decimal::of_u64(v).as_str(), v.to_string());
    }
}

#[test]
fn decimal_widths_agree() {
    for v in [0u32, 1, 65535, 65536, 999_999_999, u32::MAX] {
        assert_eq!(Decimal::of_u32(v).as_str(), Decimal::of_u64(v as u64).as_str());
    }
}

#[test]
fn limbs_carry_across_the_u32_boundary() {
    assert_eq!(Decimal::of_u64(4_294_967_296).as_str(), "4294967296");
    assert_eq!(Decimal::of_u64(10_000_000_000).as_str(), "10000000000");
    assert_eq!(Decimal::of_u64(18_446_744_073_709_551_615).as_str(), "18446744073709551615");
}

#[test]
fn byte_counted_utf16() {
    assert_eq!(utf16_len(""), 0);
    assert_eq!(utf16_len("abc"), 3);
    assert_eq!(utf16_len("héllo 😀"), lib::utf16_len("héllo 😀"));
    assert_eq!(utf16_len("\u{10000}\u{7FF}\u{800}"), 4);
}

#[test]
fn compile_time_encoding() {
    let exact: [u16; 4] = encode_utf16("a😀b");
    assert_eq!(exact.to_vec(), units("a😀b"));
    let short: [u16; 2] = encode_utf16("a😀b");
    assert_eq!(short, [0x61, 0xD83D]);
    let long: [u16; 5] = encode_utf16("ab");
    assert_eq!(long, [0x61, 0x62, 0, 0, 0]);
}

#[test]
fn utf16_str_holds_both() {
    static UNITS: [u16; 5] = [0x48, 0x65, 0x6c, 0x6c, 0x6f];
    let s = Utf16Str::__encoded("Hello", &UNITS);
    assert_eq!(s.as_str(), "Hello");
    assert_eq!(s.units(), &UNITS[..]);
    assert_eq!(s.len(), 5);
    assert!(s.starts_with("He"));
}

fn written<const N: usize>(b: &Buf16<N>) -> String {
    String::from_utf16(b.units()).unwrap()
}

#[test]
fn args_write_their_display() {
    let mut b: Buf16<64> = Buf16::new();
    42i32.put(&mut b).unwrap();
    ' '.put(&mut b).unwrap();
    (-7i8).put(&mut b).unwrap();
    ' '.put(&mut b).unwrap();
    i64::MIN.put(&mut b).unwrap();
    ' '.put(&mut b).unwrap();
    u64::MAX.put(&mut b).unwrap();
    ' '.put(&mut b).unwrap();
    "x€".put(&mut b).unwrap();
    assert_eq!(written(&b), format!("42 -7 {} {} x€", i64::MIN, u64::MAX));
}

#[test]
fn args_of_every_width() {
    let mut b: Buf16<128> = Buf16::new();
    0u8.put(&mut b).unwrap();
    u16::MAX.put(&mut b).unwrap();
    i16::MIN.put(&mut b).unwrap();
    u32::MAX.put(&mut b).unwrap();
    (5_000_000_000u64).put(&mut b).unwrap();
    (-5_000_000_000i64).put(&mut b).unwrap();
    (-3isize).put(&mut b).unwrap();
    (9usize).put(&mut b).unwrap();
    (&&12u32).put(&mut b).unwrap();
    assert_eq!(written(&b), "065535-3276842949672955000000000-5000000000-3912");
}

#[test]
fn a_number_that_does_not_fit_leaves_its_sign() {
    let mut b: Buf16<2> = Buf16::new();
    b.push('a').unwrap();
    assert!(b.put_i64(-5).is_err());
    assert_eq!(written(&b), "a-");
    let mut c: Buf16<2> = Buf16::new();
    assert!(c.put_i64(123).is_err());
    assert_eq!(written(&c), "");
    let mut d: Buf16<1> = Buf16::new();
    assert!(d.put_u32(5, true).is_err());
    assert_eq!(written(&d), "-");
}

#[test]
fn sink_text_paths() {
    let mut b: Buf16<4> = Buf16::new();
    b.put_utf16("ab", &[0x61, 0x62]).unwrap();
    b.put_str("c").unwrap();
    assert!(b.put_str("de").is_err());
    b.put_char('d').unwrap();
    assert!(b.put_char('e').is_err());
    assert!(b.put_u64(1).is_err());
    assert_eq!(written(&b), "abcd");
}

#[test]
fn strings_and_mutable_references_are_args() {
    let mut b: Buf16<32> = Buf16::new();
    String::from("ab€").put(&mut b).unwrap();
    let mut n = 7u8;
    (&mut n).put(&mut b).unwrap();
    assert_eq!(written(&b), "ab€7");
}

#[test]
fn buf16_is_a_fmt_write() {
    let mut b: Buf16<4> = Buf16::new();
    core::fmt::Write::write_str(&mut b, "abc").unwrap();
    assert_eq!(written(&b), "abc");
    assert!(core::fmt::Write::write_str(&mut b, "de").is_err());
    assert_eq!(written(&b), "abc");
    core::fmt::Write::write_char(&mut b, 'd').unwrap();
    assert_eq!(written(&b), "abcd");
}
