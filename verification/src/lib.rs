//! Wrapper types around raw byte sequences with a readable, escaped,
//! byte-string-literal rendering (e.g. `b"Hello\x00"`).
//!
//! [`ByteStr`] borrows a byte slice; [`ByteString`] owns a growable byte
//! buffer. Both behave like the underlying byte sequence for equality,
//! ordering, hashing and element access, and add only the rendering,
//! which escapes a byte exactly as a Rust byte-string literal would.

pub mod byte_str;
pub mod byte_string;
pub mod compare;
pub mod escape;
pub mod laws;

pub use byte_str::ByteStr;
pub use byte_string::ByteString;
pub use escape::render_string;
