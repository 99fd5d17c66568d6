//! Localised strings: the strings file's layout, the strings read out of it, and the
//! device's UI language.
pub mod heap_bytes;
pub mod lang;
pub mod language;
pub mod layout;
pub mod strings;
pub mod text;

pub use language::Language;
pub use layout::{ReadAt, Span, StringsLayout, Unreadable};
pub use strings::{OpenStrings, Str};
pub use text::Text;
