use lib::des8::length_of;
use lib::executor::{
    bind, defers_destroy, race_outcome, select_ready, sleep_interval, stops_scheduler, task_is_ready, task_step,
    Either, Join, TaskStep, MAX_SLEEP_MICROS,
};
use lib::fs::{
    is_dot_name, path_of, position_to_word, request_path, size_from_word, size_to_word, unit_result,
    Entry, FileMode, OpenCall, Opening, PathUse, Seek, MAX_FILE_NAME,
};
use lib::heap::{SymbianHeap, KERR_NO_MEMORY, MAX_TRUSTED_ALIGN};
use lib::libcalls::{
    compare_bytes, compare_exchange, combine, created_status, lock_step, AtomicOp, DescriptorLiteral,
    LockStep,
};
use lib::locale::lang;
use lib::locale::Language;
use lib::net::{
    blocking_allowed, host_name, recv_outcome, resolved_address, v4_reading, v6_unsupported, Shutdown,
    V4Reading, KAF_INET, KAF_INET6,
};
use lib::parity::Probe;
use lib::time::{FastCounter, NanoTicks, SystemTicks, Ttime};
use lib::{ErrorKind, SymbianError};

fn units(s: &str) -> Vec<u16> {
    s.encode_utf16().collect()
}

#[test]
fn ticks_wrap() {
    let t = NanoTicks::from_raw(u32::MAX - 1);
    let later = t.advanced_by(5);
    assert_eq!(later.raw(), 3);
    assert_eq!(later.ticks_since(t), 5);
    assert_eq!(t.ticks_since(later), u32::MAX - 4);
    assert_eq!(SystemTicks::from_raw(2).ticks_since(SystemTicks::from_raw(u32::MAX)), 3);
    assert_eq!(SystemTicks::from_raw(9).raw(), 9);
    assert_eq!(FastCounter::from_raw(77).raw(), 77);
    assert_eq!(Ttime::from_micros_since_year_zero(-5).micros_since_year_zero(), -5);
    let a = Probe { cells: 1, bytes: 8, ticks: 10 };
    let b = Probe { cells: 2, bytes: 16, ticks: 4 };
    assert_eq!(a.ticks_since(b), 6);
    assert_eq!(b.ticks_since(a), u32::MAX - 5);
}

#[test]
fn languages() {
    assert_eq!(Language::from_code(lang::english).code(), 1);
    assert_eq!(lang::english_apac, 129);
    assert_eq!(lang::none, 0xFFFF);
    assert_eq!(Language::from_raw(93).code(), lang::ukrainian);
    assert_eq!(Language::from_raw(-1).code(), 0xFFFF);
    assert_eq!(Language::from_raw(0x1_0000).code(), 0xFFFF);
    assert_eq!(Language::from_code(7), Language::from_code(7));
}

#[test]
fn file_modes_and_seeks() {
    assert_eq!(FileMode::Read.bits(), 0x002);
    assert_eq!(FileMode::Write.bits(), 0x202);
    assert_eq!(FileMode::ReadWrite.bits(), 0x202);
    assert_eq!(Seek::Start(5).parts(), (1, 5));
    assert_eq!(Seek::Current(-2).parts(), (2, -2));
    assert_eq!(Seek::End(0).parts(), (3, 0));
}

#[test]
fn opening_calls() {
    assert_eq!(Opening::Existing.first_call(), OpenCall::Open);
    assert_eq!(Opening::New.first_call(), OpenCall::Create);
    assert_eq!(Opening::Replace.first_call(), OpenCall::Replace);
    assert_eq!(Opening::OpenOrCreate.first_call(), OpenCall::Open);
    assert!(Opening::OpenOrCreate.creates_after(-1));
    assert!(!Opening::OpenOrCreate.creates_after(0));
    assert!(!Opening::OpenOrCreate.creates_after(-21));
    assert!(!Opening::Existing.creates_after(-1));
}

#[test]
fn paths() {
    assert_eq!(path_of("C:\\data\\a.txt").unwrap().units(), &units("C:\\data\\a.txt")[..]);
    let long = "x".repeat(MAX_FILE_NAME + 1);
    assert_eq!(path_of(&long).err().unwrap().kind(), ErrorKind::Overflow);
    assert_eq!(path_of(&"x".repeat(MAX_FILE_NAME)).unwrap().length(), MAX_FILE_NAME);
    let listing = request_path("C:\\dir", PathUse::Listing).unwrap();
    assert_eq!(listing.units(), &units("C:\\dir\\*")[..]);
    let listing = request_path("C:\\dir\\", PathUse::Listing).unwrap();
    assert_eq!(listing.units(), &units("C:\\dir\\*")[..]);
    let dir = request_path("E:\\new", PathUse::Directory).unwrap();
    assert_eq!(dir.units(), &units("E:\\new\\")[..]);
    let file = request_path("E:\\new", PathUse::AsGiven).unwrap();
    assert_eq!(file.units(), &units("E:\\new")[..]);
    let full = "y".repeat(MAX_FILE_NAME - 1);
    assert_eq!(request_path(&full, PathUse::Listing).err().unwrap().kind(), ErrorKind::Overflow);
    assert_eq!(request_path(&full, PathUse::Directory).unwrap().length(), MAX_FILE_NAME);
}

#[test]
fn entries() {
    let dir = Entry::from_words(0x10, 0);
    assert!(dir.is_dir() && !dir.is_file() && !dir.is_volume());
    let vol = Entry::from_words(0x08, 0);
    assert!(vol.is_volume() && !vol.is_file());
    let file = Entry::from_words(0x20, 0xFFFF_FFFF);
    assert!(file.is_file());
    assert_eq!(file.size(), 0xFFFF_FFFF);
    assert_eq!(file.attributes(), 0x20);
    assert!(is_dot_name(&[0x2e]));
    assert!(is_dot_name(&[0x2e, 0x2e]));
    assert!(!is_dot_name(&[0x2e, 0x2e, 0x2e]));
    assert!(!is_dot_name(&[0x61]));
    assert!(!is_dot_name(&[]));
}

#[test]
fn sizes_and_positions() {
    assert_eq!(size_from_word(5), 5);
    assert_eq!(size_from_word(-1), 0xFFFF_FFFF);
    assert_eq!(size_from_word(i32::MIN), 0x8000_0000);
    assert_eq!(size_to_word(7), Ok(7));
    assert_eq!(size_to_word(1 << 31).unwrap_err().kind(), ErrorKind::TooBig);
    assert_eq!(position_to_word(9), Ok(9));
    assert_eq!(position_to_word(u32::MAX).unwrap_err().kind(), ErrorKind::TooBig);
    assert_eq!(unit_result(3), Ok(()));
    assert_eq!(unit_result(-11).unwrap_err().kind(), ErrorKind::AlreadyExists);
    assert_eq!(length_of(10), Ok(10));
    assert_eq!(length_of(0x1000_0000).unwrap_err().kind(), ErrorKind::TooBig);
}

#[test]
fn sockets() {
    assert_eq!(Shutdown::Read.how(), 1);
    assert_eq!(Shutdown::Write.how(), 2);
    assert_eq!(Shutdown::Both.how(), 0);
    assert_eq!(Shutdown::Immediate.how(), 3);
    assert_eq!(v4_reading(KAF_INET, false), Ok(V4Reading::Direct));
    assert_eq!(v4_reading(KAF_INET6, true), Ok(V4Reading::ConvertMapped));
    assert_eq!(v4_reading(KAF_INET6, false).unwrap_err().kind(), ErrorKind::NotSupported);
    assert_eq!(v4_reading(0, true).unwrap_err().kind(), ErrorKind::NotSupported);
    assert_eq!(v6_unsupported().code(), -5);
    assert_eq!(resolved_address(0x7f00_0001), Ok(0x7f00_0001));
    assert_eq!(resolved_address(0).unwrap_err().kind(), ErrorKind::NotFound);
    let eof = Err(SymbianError::of(ErrorKind::Eof));
    assert_eq!(recv_outcome(eof, 0), Ok(0));
    assert_eq!(recv_outcome(Ok(0), 12), Ok(12));
    let reset = Err(SymbianError::of(ErrorKind::Disconnected));
    assert_eq!(recv_outcome(reset, 3).unwrap_err().kind(), ErrorKind::Disconnected);
    assert_eq!(blocking_allowed(false), Ok(()));
    assert_eq!(blocking_allowed(true).unwrap_err().kind(), ErrorKind::InUse);
    assert_eq!(host_name("localhost").unwrap().units(), &units("localhost")[..]);
    assert_eq!(host_name(&"h".repeat(0x101)).err().unwrap().kind(), ErrorKind::Overflow);
}

#[test]
fn heap_requests() {
    assert_eq!(KERR_NO_MEMORY, -4);
    assert_eq!(MAX_TRUSTED_ALIGN, 8);
    assert_eq!(SymbianHeap::cell_size(100), Some(100));
    assert_eq!(SymbianHeap::cell_size(i32::MAX as usize + 1), None);
    assert_eq!(SymbianHeap::alloc_request(24, 8), Some(24));
    assert_eq!(SymbianHeap::alloc_request(24, 64), Some(88));
    assert_eq!(SymbianHeap::alloc_request(usize::MAX - 8, 16), None);
    assert_eq!(SymbianHeap::place_padded(0x1008, 16), 0x1010);
    assert_eq!(SymbianHeap::place_padded(0x1000, 16), 0x1010);
    assert_eq!(SymbianHeap::place_padded(0x2038, 64), 0x2040);
    assert_eq!(SymbianHeap::preserved(10, 4), 4);
    assert_eq!(SymbianHeap::preserved(3, 4), 3);
}

#[test]
fn joins_and_races() {
    let mut j: Join<u8, &str> = Join::new();
    assert_eq!(j.finish(), None);
    j.right_finished("b");
    assert_eq!(j.finish(), None);
    j.left_finished(1);
    assert_eq!(j.finish(), Some((1, "b")));
    assert_eq!(j.finish(), None);
    assert_eq!(race_outcome(Some(1), Some('x')), Some(Either::Left(1)));
    assert_eq!(race_outcome::<u8, char>(None, Some('x')), Some(Either::Right('x')));
    assert_eq!(race_outcome::<u8, char>(None, None), None);
}

#[test]
fn executor_decisions() {
    assert_eq!(sleep_interval(300_000), Ok(300_000));
    assert_eq!(sleep_interval(MAX_SLEEP_MICROS), Ok(i32::MAX));
    assert_eq!(sleep_interval(MAX_SLEEP_MICROS + 1).unwrap_err().kind(), ErrorKind::Overflow);
    assert_eq!(bind(0, 0).1.unwrap_err().kind(), ErrorKind::NotReady);
    assert_eq!(bind(0, 0x4000), (0x4000, Ok(())));
    assert_eq!(bind(0x4000, 0x4000), (0x4000, Ok(())));
    assert_eq!(bind(0x4000, 0x8000).1.unwrap_err().kind(), ErrorKind::InUse);
    assert_eq!(bind(0x4000, 0x8000).0, 0x4000);
    assert_eq!(task_step(true, true, true), TaskStep::Skip);
    assert_eq!(task_step(false, false, true), TaskStep::Skip);
    assert_eq!(task_step(false, true, false), TaskStep::Remark);
    assert_eq!(task_step(false, true, true), TaskStep::Poll);
    assert!(task_is_ready(false, true));
    assert!(!task_is_ready(true, true));
    assert!(stops_scheduler(true, true));
    assert!(!stops_scheduler(false, true));
    assert!(defers_destroy(0x10, 0x10));
    assert!(!defers_destroy(0, 0));
    assert!(!defers_destroy(0x10, 0x20));
}

#[test]
fn byte_comparison() {
    assert_eq!(compare_bytes(b"abc", b"abc", 3), 0);
    assert_eq!(compare_bytes(b"abd", b"abc", 3), 1);
    assert_eq!(compare_bytes(b"abc", b"abd", 3), -1);
    assert_eq!(compare_bytes(&[0x00], &[0xff], 1), -255);
    assert_eq!(compare_bytes(b"abX", b"abY", 2), 0);
    assert_eq!(compare_bytes(b"", b"", 0), 0);
}

#[test]
fn atomic_arithmetic() {
    assert_eq!(combine(AtomicOp::Exchange, 1, 9), 9);
    assert_eq!(combine(AtomicOp::Add, u32::MAX, 2), 1);
    assert_eq!(combine(AtomicOp::Sub, 0, 1), u32::MAX);
    assert_eq!(combine(AtomicOp::Sub, combine(AtomicOp::Add, 7, u32::MAX), u32::MAX), 7);
    assert_eq!(combine(AtomicOp::And, 0b1100, 0b1010), 0b1000);
    assert_eq!(combine(AtomicOp::Or, 0b1100, 0b1010), 0b1110);
    assert_eq!(combine(AtomicOp::Xor, 0b1100, 0b1010), 0b0110);
    assert_eq!(combine(AtomicOp::Nand, 0b1100, 0b1010), !0b1000u32);
    assert_eq!(compare_exchange(5, 5, 9), (true, 9, 5));
    assert_eq!(compare_exchange(5, 4, 9), (false, 5, 5));
    assert_eq!(lock_step(1), LockStep::Ready);
    assert_eq!(lock_step(0), LockStep::Wait);
    assert_eq!(lock_step(-4), LockStep::Fail(-4));
    assert_eq!(created_status(0), 1);
    assert_eq!(created_status(-4), -4);
    let category = DescriptorLiteral::new([0x73u16; 12]);
    assert_eq!(category.header_word(), 12);
    assert_eq!(category.text(), &[0x73u16; 12][..]);
}

#[test]
fn dialects_fall_back_to_their_base() {
    let of = Language::from_code;
    assert_eq!(of(lang::english_apac).base(), Some(of(lang::english)));
    assert_eq!(of(lang::english_taiwan).base(), Some(of(lang::english)));
    assert_eq!(of(lang::english_thailand).base(), Some(of(lang::english)));
    assert_eq!(of(lang::malay_apac).base(), Some(of(lang::malay)));
    assert_eq!(of(lang::english).base(), None);
    assert_eq!(of(lang::american).base(), None);
    assert_eq!(of(lang::none).base(), None);
}

#[test]
fn join_rounds_poll_each_side_until_it_finishes() {
    let mut j: Join<u8, char> = Join::new();
    assert!(j.needs_left() && j.needs_right());
    assert_eq!(j.round(None, Some('y')), None);
    assert!(j.needs_left() && !j.needs_right());
    assert_eq!(j.round(None, None), None);
    assert_eq!(j.round(Some(7), Some('z')), Some((7, 'y')));
    assert!(j.needs_left() && j.needs_right());
}

#[test]
fn a_round_polls_exactly_the_ready_tasks() {
    let flags = [(false, true), (true, true), (false, false), (false, true)];
    assert_eq!(select_ready(&flags), vec![0, 3]);
    assert!(select_ready(&[(false, false), (true, true)]).is_empty());
    assert!(select_ready(&[]).is_empty());
}
