//! The device's UI language: `TLanguage`.
use vstd::prelude::*;

verus! {

/// One value of `TLanguage` (`e32const.h` line 1439).
///
/// A newtype over `u16` rather than an `enum` because the set is **open**: this SDK
/// names 108 of the 1024 the header's own comment allows, and a device may report one
/// it does not name. `u16` because `TLocale` stores these as `TUint16` and
/// `ELangNone = 0xFFFF` is the largest enumerator.
#[derive(Clone, Copy, Debug, PartialEq, Eq, PartialOrd, Ord, Hash, Structural)]
pub struct Language(u16);

/// `ELangNone` (`e32const.h`): what an out-of-range answer is narrowed to.
pub const NONE: u16 = 0xFFFF;

impl Language {
    /// The raw value, for contracts.
    pub closed spec fn spec_code(self) -> u16 {
        self.0
    }

    /// The language for a raw `TLanguage` value.
    pub fn from_code(code: u16) -> (l: Self)
        ensures
            l == Language::from_code_spec(code),
            l.spec_code() == code,
    {
        Language(code)
    }

    /// The raw `TLanguage` value.
    pub fn code(self) -> (code: u16)
        ensures
            code == self.spec_code(),
    {
        self.0
    }

    /// The language a raw `User::Language()` answer names. A value outside
    /// `0..=0xFFFF` is not a `TLanguage` and becomes `ELangNone`.
    pub fn from_raw(raw: i32) -> (l: Self)
        ensures
            l.spec_code() == (if 0 <= raw <= 0xFFFF {
                raw as u16
            } else {
                NONE
            }),
    {
        if 0 <= raw && raw <= 0xFFFF {
            Language(raw as u16)
        } else {
            Language(NONE)
        }
    }
}

/// The language `code` is a dialect of, when `e32const.h` says so in the enumerator's own
/// name: the six `ELangEnglish_*` variants are English and `ELangMalay_Apac` is Malay.
/// No other relation is assumed — `ELangAmerican` is not declared a dialect of English.
pub open spec fn base_spec(code: u16) -> Option<u16> {
    if code == 129 || code == 157 || code == 158 || code == 159 || code == 160 || code == 161 {
        Some(1u16)
    } else if code == 326 {
        Some(70u16)
    } else {
        None
    }
}

impl Language {
    /// The language this one is a dialect of, for the seven enumerators whose name
    /// carries such a suffix over a language the header also declares; `None` otherwise.
    pub fn base(self) -> (b: Option<Language>)
        ensures
            match base_spec(self.spec_code()) {
                Some(code) => b == Some(Language::from_code_spec(code)),
                None => b is None,
            },
    {
        match self.0 {
            129 | 157 | 158 | 159 | 160 | 161 => Some(Language(1)),
            326 => Some(Language(70)),
            _ => None,
        }
    }
}

/// A dialect's base is no dialect itself, so the fallback chain is one step long.
pub proof fn law_base_is_final(code: u16)
    ensures
        base_spec(code) matches Some(b) ==> base_spec(b) is None,
{
}

/// A language is its code: building one from a code and reading it back gives the code,
/// and two languages with the same code are the same language.
pub proof fn law_language_code_round_trip(code: u16, a: Language, b: Language)
    ensures
        Language::from_code_spec(code).spec_code() == code,
        a.spec_code() == b.spec_code() ==> a == b,
{
}

impl Language {
    /// The language of a code, for contracts.
    pub closed spec fn from_code_spec(code: u16) -> Language {
        Language(code)
    }
}

} // verus!
