//! A fixed greeting, laid out as the bytes of a C string, and the rules that
//! place the C header which declares its two entry points.
//!
//! The greeting is a constant: both entry points return the same twelve
//! bytes, the text `Hello Rust!` and one zero byte after it, borrowed for the
//! life of the program. What is proved of them is stated in [`greeting`].

pub mod greeting;
pub mod header;

pub use greeting::{hello_rust, hello_rust2};
