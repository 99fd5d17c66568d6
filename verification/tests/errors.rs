use lib::{check, ErrorKind, SymbianError};

#[test]
fn kinds_by_code() {
    assert_eq!(ErrorKind::of(0), ErrorKind::NoError);
    assert_eq!(ErrorKind::of(-1), ErrorKind::NotFound);
    assert_eq!(ErrorKind::of(-9), ErrorKind::Overflow);
    assert_eq!(ErrorKind::of(-19), ErrorKind::Unknown_);
    assert_eq!(ErrorKind::of(-48), ErrorKind::CommsBreak);
    assert_eq!(ErrorKind::of(-49), ErrorKind::Unknown(-49));
    assert_eq!(ErrorKind::of(5), ErrorKind::Unknown(5));
}

#[test]
fn names_and_codes() {
    assert_eq!(ErrorKind::NoError.name(), "KErrNone");
    assert_eq!(ErrorKind::Overflow.name(), "KErrOverflow");
    assert_eq!(ErrorKind::Unknown_.name(), "KErrUnknown");
    assert_eq!(ErrorKind::Unknown(-1000).name(), "KErrUnnamed");
    assert_eq!(ErrorKind::PermissionDenied.code(), -46);
    assert_eq!(ErrorKind::Unknown(-1000).code(), -1000);
}

#[test]
fn every_code_round_trips() {
    for code in -60..=5 {
        assert_eq!(ErrorKind::of(code).code(), code);
        assert_eq!(SymbianError::from_code(code).code(), code);
    }
    for code in -48..=0 {
        assert_eq!(ErrorKind::of(ErrorKind::of(code).code()), ErrorKind::of(code));
    }
}

#[test]
fn error_keeps_component_codes() {
    let e = SymbianError::from_code(-1234);
    assert_eq!(e.code(), -1234);
    assert_eq!(e.kind(), ErrorKind::Unknown(-1234));
    assert_eq!(SymbianError::of(ErrorKind::InUse).code(), -14);
    assert_eq!(SymbianError::of(ErrorKind::InUse).kind(), ErrorKind::InUse);
    assert_eq!(SymbianError::from(ErrorKind::NoMemory).code(), -4);
}

#[test]
fn check_only_negative_is_error() {
    assert_eq!(check(0), Ok(0));
    assert_eq!(check(42), Ok(42));
    assert_eq!(check(-25).unwrap_err().kind(), ErrorKind::Eof);
    assert_eq!(check(i32::MIN).unwrap_err().code(), i32::MIN);
}

#[test]
fn errors_describe_themselves_by_name_and_code() {
    assert_eq!(SymbianError::of(ErrorKind::NotFound).describe(), "KErrNotFound (-1)");
    assert_eq!(SymbianError::from_code(-57).describe(), "KErrUnnamed (-57)");
    assert_eq!(SymbianError::from_code(i32::MIN).describe(), "KErrUnnamed (-2147483648)");
    assert_eq!(SymbianError::from_code(0).describe(), "KErrNone (0)");
    assert_eq!(SymbianError::of(ErrorKind::Unknown_).describe(), "KErrUnknown (-19)");
}
