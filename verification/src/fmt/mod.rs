//! The fast `write!`: plain `{}` of strings and integers appended directly, with the
//! digits produced here and text known at compile time already in UTF-16.
pub mod decimal;
pub mod utf16;
pub mod arg;
pub mod sink;

pub use arg::Arg;
pub use decimal::Decimal;
pub use sink::Sink;
pub use utf16::Utf16Str;
