//! Every `TLanguage` the SDK names, under the name an application writes in a locale
//! declaration.
//!
//! Read off `epoc32/include/e32const.h` (S60 3rd FP2), one constant per enumerator, in
//! the header's order: the `ELang` prefix dropped, the CamelCase broken at each capital,
//! the whole thing lower case. `ELangEnglish` is `english`, `ELangEnglish_Apac` is
//! `english_apac`.
//!
//! Each constant is the raw `TLanguage` value; `Language::from_code(lang::english)` is
//! the language.
//!
//! **Lower case on purpose.** These are the words a developer writes inside a locale
//! declaration, where the same words become struct field names.
#![allow(non_upper_case_globals)]
use vstd::prelude::*;

verus! {

/// `ELangTest`.
pub const test: u16 = 0;

/// `ELangEnglish`.
pub const english: u16 = 1;

/// `ELangFrench`.
pub const french: u16 = 2;

/// `ELangGerman`.
pub const german: u16 = 3;

/// `ELangSpanish`.
pub const spanish: u16 = 4;

/// `ELangItalian`.
pub const italian: u16 = 5;

/// `ELangSwedish`.
pub const swedish: u16 = 6;

/// `ELangDanish`.
pub const danish: u16 = 7;

/// `ELangNorwegian`.
pub const norwegian: u16 = 8;

/// `ELangFinnish`.
pub const finnish: u16 = 9;

/// `ELangAmerican`.
pub const american: u16 = 10;

/// `ELangSwissFrench`.
pub const swiss_french: u16 = 11;

/// `ELangSwissGerman`.
pub const swiss_german: u16 = 12;

/// `ELangPortuguese`.
pub const portuguese: u16 = 13;

/// `ELangTurkish`.
pub const turkish: u16 = 14;

/// `ELangIcelandic`.
pub const icelandic: u16 = 15;

/// `ELangRussian`.
pub const russian: u16 = 16;

/// `ELangHungarian`.
pub const hungarian: u16 = 17;

/// `ELangDutch`.
pub const dutch: u16 = 18;

/// `ELangBelgianFlemish`.
pub const belgian_flemish: u16 = 19;

/// `ELangAustralian`.
pub const australian: u16 = 20;

/// `ELangBelgianFrench`.
pub const belgian_french: u16 = 21;

/// `ELangAustrian`.
pub const austrian: u16 = 22;

/// `ELangNewZealand`.
pub const new_zealand: u16 = 23;

/// `ELangInternationalFrench`.
pub const international_french: u16 = 24;

/// `ELangCzech`.
pub const czech: u16 = 25;

/// `ELangSlovak`.
pub const slovak: u16 = 26;

/// `ELangPolish`.
pub const polish: u16 = 27;

/// `ELangSlovenian`.
pub const slovenian: u16 = 28;

/// `ELangTaiwanChinese`.
pub const taiwan_chinese: u16 = 29;

/// `ELangHongKongChinese`.
pub const hong_kong_chinese: u16 = 30;

/// `ELangPrcChinese`.
pub const prc_chinese: u16 = 31;

/// `ELangJapanese`.
pub const japanese: u16 = 32;

/// `ELangThai`.
pub const thai: u16 = 33;

/// `ELangAfrikaans`.
pub const afrikaans: u16 = 34;

/// `ELangAlbanian`.
pub const albanian: u16 = 35;

/// `ELangAmharic`.
pub const amharic: u16 = 36;

/// `ELangArabic`.
pub const arabic: u16 = 37;

/// `ELangArmenian`.
pub const armenian: u16 = 38;

/// `ELangTagalog`.
pub const tagalog: u16 = 39;

/// `ELangBelarussian`.
pub const belarussian: u16 = 40;

/// `ELangBengali`.
pub const bengali: u16 = 41;

/// `ELangBulgarian`.
pub const bulgarian: u16 = 42;

/// `ELangBurmese`.
pub const burmese: u16 = 43;

/// `ELangCatalan`.
pub const catalan: u16 = 44;

/// `ELangCroatian`.
pub const croatian: u16 = 45;

/// `ELangCanadianEnglish`.
pub const canadian_english: u16 = 46;

/// `ELangInternationalEnglish`.
pub const international_english: u16 = 47;

/// `ELangSouthAfricanEnglish`.
pub const south_african_english: u16 = 48;

/// `ELangEstonian`.
pub const estonian: u16 = 49;

/// `ELangFarsi`.
pub const farsi: u16 = 50;

/// `ELangCanadianFrench`.
pub const canadian_french: u16 = 51;

/// `ELangScotsGaelic`.
pub const scots_gaelic: u16 = 52;

/// `ELangGeorgian`.
pub const georgian: u16 = 53;

/// `ELangGreek`.
pub const greek: u16 = 54;

/// `ELangCyprusGreek`.
pub const cyprus_greek: u16 = 55;

/// `ELangGujarati`.
pub const gujarati: u16 = 56;

/// `ELangHebrew`.
pub const hebrew: u16 = 57;

/// `ELangHindi`.
pub const hindi: u16 = 58;

/// `ELangIndonesian`.
pub const indonesian: u16 = 59;

/// `ELangIrish`.
pub const irish: u16 = 60;

/// `ELangSwissItalian`.
pub const swiss_italian: u16 = 61;

/// `ELangKannada`.
pub const kannada: u16 = 62;

/// `ELangKazakh`.
pub const kazakh: u16 = 63;

/// `ELangKhmer`.
pub const khmer: u16 = 64;

/// `ELangKorean`.
pub const korean: u16 = 65;

/// `ELangLao`.
pub const lao: u16 = 66;

/// `ELangLatvian`.
pub const latvian: u16 = 67;

/// `ELangLithuanian`.
pub const lithuanian: u16 = 68;

/// `ELangMacedonian`.
pub const macedonian: u16 = 69;

/// `ELangMalay`.
pub const malay: u16 = 70;

/// `ELangMalayalam`.
pub const malayalam: u16 = 71;

/// `ELangMarathi`.
pub const marathi: u16 = 72;

/// `ELangMoldavian`.
pub const moldavian: u16 = 73;

/// `ELangMongolian`.
pub const mongolian: u16 = 74;

/// `ELangNorwegianNynorsk`.
pub const norwegian_nynorsk: u16 = 75;

/// `ELangBrazilianPortuguese`.
pub const brazilian_portuguese: u16 = 76;

/// `ELangPunjabi`.
pub const punjabi: u16 = 77;

/// `ELangRomanian`.
pub const romanian: u16 = 78;

/// `ELangSerbian`.
pub const serbian: u16 = 79;

/// `ELangSinhalese`.
pub const sinhalese: u16 = 80;

/// `ELangSomali`.
pub const somali: u16 = 81;

/// `ELangInternationalSpanish`.
pub const international_spanish: u16 = 82;

/// `ELangLatinAmericanSpanish`.
pub const latin_american_spanish: u16 = 83;

/// `ELangSwahili`.
pub const swahili: u16 = 84;

/// `ELangFinlandSwedish`.
pub const finland_swedish: u16 = 85;

/// `ELangReserved1`.
pub const reserved1: u16 = 86;

/// `ELangTamil`.
pub const tamil: u16 = 87;

/// `ELangTelugu`.
pub const telugu: u16 = 88;

/// `ELangTibetan`.
pub const tibetan: u16 = 89;

/// `ELangTigrinya`.
pub const tigrinya: u16 = 90;

/// `ELangCyprusTurkish`.
pub const cyprus_turkish: u16 = 91;

/// `ELangTurkmen`.
pub const turkmen: u16 = 92;

/// `ELangUkrainian`.
pub const ukrainian: u16 = 93;

/// `ELangUrdu`.
pub const urdu: u16 = 94;

/// `ELangReserved2`.
pub const reserved2: u16 = 95;

/// `ELangVietnamese`.
pub const vietnamese: u16 = 96;

/// `ELangWelsh`.
pub const welsh: u16 = 97;

/// `ELangZulu`.
pub const zulu: u16 = 98;

/// `ELangOther`.
pub const other: u16 = 99;

/// `ELangManufacturerEnglish`.
pub const manufacturer_english: u16 = 100;

/// `ELangSouthSotho`.
pub const south_sotho: u16 = 101;

/// `ELangEnglish_Apac`.
pub const english_apac: u16 = 129;

/// `ELangEnglish_Taiwan`.
pub const english_taiwan: u16 = 157;

/// `ELangEnglish_HongKong`.
pub const english_hong_kong: u16 = 158;

/// `ELangEnglish_Prc`.
pub const english_prc: u16 = 159;

/// `ELangEnglish_Japan`.
pub const english_japan: u16 = 160;

/// `ELangEnglish_Thailand`.
pub const english_thailand: u16 = 161;

/// `ELangMalay_Apac`.
pub const malay_apac: u16 = 326;

/// `ELangNone`.
pub const none: u16 = 0xFFFF;

} // verus!
