//! Safe Symbian OS 9.3 domain logic, verified: the 16-bit descriptors and their UTF-16,
//! the system-wide error codes, the strings-file reader, the fast decimal formatter, the
//! heap's cell arithmetic, and the decisions the platform's calls are made around.
//!
//! Every call into the operating system is made at the edge; what it is handed and what
//! is made of its answer is here, with its contract.
pub mod des;
pub mod des8;
pub mod error;
pub mod error_kind;
pub mod executor;
pub mod fmt;
pub mod fs;
pub mod heap;
pub mod libcalls;
pub mod locale;
pub mod net;
pub mod parity;
pub mod time;

pub use des::{Buf16, HBuf16, PtrC16, decode_utf16_into, encode_utf16_into, utf16_len};
pub use error::{Result, SymbianError, check};
pub use error_kind::ErrorKind;
