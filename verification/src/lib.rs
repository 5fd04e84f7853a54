//! Fixed-width vectors, the masks that belong to them, and the casts between them.
//!
//! - [`types`] holds the vectors: a [`types::Vector`] of `N` lanes of one scalar type,
//!   with a name for each kind of lane and each power-of-two count up to 64.
//! - [`simd`] holds the lanes and the masks: a mask is all ones or all zeros, and every
//!   lane type has the mask type of its width.
//! - [`muck`] says what may be done with the bytes of a type, and casts a value of one
//!   type to another of the same size.
//! - [`ordered`] compares the primitive types, and [`float`] knows the predicates of the
//!   AVX compare instructions.
//!
//! Every function states in its contract what it returns, and is proved to meet it.

#![allow(non_camel_case_types)]

pub mod arch;
pub mod float;
pub mod func;
pub mod muck;
pub mod ordered;
pub mod sealed;
pub mod simd;
pub mod types;
pub mod util;

pub use func::Func;
