//! Helpers on byte slices and strings.

pub mod bytes;
pub mod string;
