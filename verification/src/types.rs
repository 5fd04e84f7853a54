//! Module containing platform-nonspecific types such as vectors.
//!
//! # Vectors
//!
//! The vector types within this crate all have the following things in common:
//!
//! - For any given vector containing scalars of type `T`, and a length of `N`, its
//!   size will always be equal to that of `[T; N]`.
//!
//! - All vectors have a power-of-two length. So [`u8x1`], [`u8x64`] are defined
//!   but `u8x3` and `u8x66` will never be defined.
//!
//! - Every vector has one mask vector with as many lanes of the same width: that of
//!   [`u32x4`], of [`i32x4`] and of [`f32x4`] is [`m32x4`].

use crate::simd::lane::{Float32, Float64};
use crate::simd::mask::{m16, m32, m64, m8};
use vstd::prelude::*;

/// The vector type that all of these are.
pub mod vector;

pub use vector::Vector;

verus! {

/// An 8-bit vector containing 1 [`u8`].
pub type u8x1 = Vector<u8, 1>;

/// A 16-bit vector containing 2 [`u8`]s.
pub type u8x2 = Vector<u8, 2>;

/// A 32-bit vector containing 4 [`u8`]s.
pub type u8x4 = Vector<u8, 4>;

/// A 64-bit vector containing 8 [`u8`]s.
pub type u8x8 = Vector<u8, 8>;

/// A 128-bit vector containing 16 [`u8`]s.
pub type u8x16 = Vector<u8, 16>;

/// A 256-bit vector containing 32 [`u8`]s.
pub type u8x32 = Vector<u8, 32>;

/// A 512-bit vector containing 64 [`u8`]s.
pub type u8x64 = Vector<u8, 64>;

/// A 16-bit vector containing 1 [`u16`].
pub type u16x1 = Vector<u16, 1>;

/// A 32-bit vector containing 2 [`u16`]s.
pub type u16x2 = Vector<u16, 2>;

/// A 64-bit vector containing 4 [`u16`]s.
pub type u16x4 = Vector<u16, 4>;

/// A 128-bit vector containing 8 [`u16`]s.
pub type u16x8 = Vector<u16, 8>;

/// A 256-bit vector containing 16 [`u16`]s.
pub type u16x16 = Vector<u16, 16>;

/// A 512-bit vector containing 32 [`u16`]s.
pub type u16x32 = Vector<u16, 32>;

/// A 1024-bit vector containing 64 [`u16`]s.
pub type u16x64 = Vector<u16, 64>;

/// A 32-bit vector containing 1 [`u32`].
pub type u32x1 = Vector<u32, 1>;

/// A 64-bit vector containing 2 [`u32`]s.
pub type u32x2 = Vector<u32, 2>;

/// A 128-bit vector containing 4 [`u32`]s.
pub type u32x4 = Vector<u32, 4>;

/// A 256-bit vector containing 8 [`u32`]s.
pub type u32x8 = Vector<u32, 8>;

/// A 512-bit vector containing 16 [`u32`]s.
pub type u32x16 = Vector<u32, 16>;

/// A 1024-bit vector containing 32 [`u32`]s.
pub type u32x32 = Vector<u32, 32>;

/// A 2048-bit vector containing 64 [`u32`]s.
pub type u32x64 = Vector<u32, 64>;

/// A 64-bit vector containing 1 [`u64`].
pub type u64x1 = Vector<u64, 1>;

/// A 128-bit vector containing 2 [`u64`]s.
pub type u64x2 = Vector<u64, 2>;

/// A 256-bit vector containing 4 [`u64`]s.
pub type u64x4 = Vector<u64, 4>;

/// A 512-bit vector containing 8 [`u64`]s.
pub type u64x8 = Vector<u64, 8>;

/// A 1024-bit vector containing 16 [`u64`]s.
pub type u64x16 = Vector<u64, 16>;

/// A 2048-bit vector containing 32 [`u64`]s.
pub type u64x32 = Vector<u64, 32>;

/// A 4096-bit vector containing 64 [`u64`]s.
pub type u64x64 = Vector<u64, 64>;

/// An 8-bit vector containing 1 [`i8`].
pub type i8x1 = Vector<i8, 1>;

/// A 16-bit vector containing 2 [`i8`]s.
pub type i8x2 = Vector<i8, 2>;

/// A 32-bit vector containing 4 [`i8`]s.
pub type i8x4 = Vector<i8, 4>;

/// A 64-bit vector containing 8 [`i8`]s.
pub type i8x8 = Vector<i8, 8>;

/// A 128-bit vector containing 16 [`i8`]s.
pub type i8x16 = Vector<i8, 16>;

/// A 256-bit vector containing 32 [`i8`]s.
pub type i8x32 = Vector<i8, 32>;

/// A 512-bit vector containing 64 [`i8`]s.
pub type i8x64 = Vector<i8, 64>;

/// A 16-bit vector containing 1 [`i16`].
pub type i16x1 = Vector<i16, 1>;

/// A 32-bit vector containing 2 [`i16`]s.
pub type i16x2 = Vector<i16, 2>;

/// A 64-bit vector containing 4 [`i16`]s.
pub type i16x4 = Vector<i16, 4>;

/// A 128-bit vector containing 8 [`i16`]s.
pub type i16x8 = Vector<i16, 8>;

/// A 256-bit vector containing 16 [`i16`]s.
pub type i16x16 = Vector<i16, 16>;

/// A 512-bit vector containing 32 [`i16`]s.
pub type i16x32 = Vector<i16, 32>;

/// A 1024-bit vector containing 64 [`i16`]s.
pub type i16x64 = Vector<i16, 64>;

/// A 32-bit vector containing 1 [`i32`].
pub type i32x1 = Vector<i32, 1>;

/// A 64-bit vector containing 2 [`i32`]s.
pub type i32x2 = Vector<i32, 2>;

/// A 128-bit vector containing 4 [`i32`]s.
pub type i32x4 = Vector<i32, 4>;

/// A 256-bit vector containing 8 [`i32`]s.
pub type i32x8 = Vector<i32, 8>;

/// A 512-bit vector containing 16 [`i32`]s.
pub type i32x16 = Vector<i32, 16>;

/// A 1024-bit vector containing 32 [`i32`]s.
pub type i32x32 = Vector<i32, 32>;

/// A 2048-bit vector containing 64 [`i32`]s.
pub type i32x64 = Vector<i32, 64>;

/// A 64-bit vector containing 1 [`i64`].
pub type i64x1 = Vector<i64, 1>;

/// A 128-bit vector containing 2 [`i64`]s.
pub type i64x2 = Vector<i64, 2>;

/// A 256-bit vector containing 4 [`i64`]s.
pub type i64x4 = Vector<i64, 4>;

/// A 512-bit vector containing 8 [`i64`]s.
pub type i64x8 = Vector<i64, 8>;

/// A 1024-bit vector containing 16 [`i64`]s.
pub type i64x16 = Vector<i64, 16>;

/// A 2048-bit vector containing 32 [`i64`]s.
pub type i64x32 = Vector<i64, 32>;

/// A 4096-bit vector containing 64 [`i64`]s.
pub type i64x64 = Vector<i64, 64>;

/// A 32-bit vector containing 1 [`Float32`].
pub type f32x1 = Vector<Float32, 1>;

/// A 64-bit vector containing 2 [`Float32`]s.
pub type f32x2 = Vector<Float32, 2>;

/// A 128-bit vector containing 4 [`Float32`]s.
pub type f32x4 = Vector<Float32, 4>;

/// A 256-bit vector containing 8 [`Float32`]s.
pub type f32x8 = Vector<Float32, 8>;

/// A 512-bit vector containing 16 [`Float32`]s.
pub type f32x16 = Vector<Float32, 16>;

/// A 1024-bit vector containing 32 [`Float32`]s.
pub type f32x32 = Vector<Float32, 32>;

/// A 2048-bit vector containing 64 [`Float32`]s.
pub type f32x64 = Vector<Float32, 64>;

/// A 64-bit vector containing 1 [`Float64`].
pub type f64x1 = Vector<Float64, 1>;

/// A 128-bit vector containing 2 [`Float64`]s.
pub type f64x2 = Vector<Float64, 2>;

/// A 256-bit vector containing 4 [`Float64`]s.
pub type f64x4 = Vector<Float64, 4>;

/// A 512-bit vector containing 8 [`Float64`]s.
pub type f64x8 = Vector<Float64, 8>;

/// A 1024-bit vector containing 16 [`Float64`]s.
pub type f64x16 = Vector<Float64, 16>;

/// A 2048-bit vector containing 32 [`Float64`]s.
pub type f64x32 = Vector<Float64, 32>;

/// A 4096-bit vector containing 64 [`Float64`]s.
pub type f64x64 = Vector<Float64, 64>;

/// An 8-bit vector containing 1 [`m8`].
pub type m8x1 = Vector<m8, 1>;

/// A 16-bit vector containing 2 [`m8`]s.
pub type m8x2 = Vector<m8, 2>;

/// A 32-bit vector containing 4 [`m8`]s.
pub type m8x4 = Vector<m8, 4>;

/// A 64-bit vector containing 8 [`m8`]s.
pub type m8x8 = Vector<m8, 8>;

/// A 128-bit vector containing 16 [`m8`]s.
pub type m8x16 = Vector<m8, 16>;

/// A 256-bit vector containing 32 [`m8`]s.
pub type m8x32 = Vector<m8, 32>;

/// A 512-bit vector containing 64 [`m8`]s.
pub type m8x64 = Vector<m8, 64>;

/// A 16-bit vector containing 1 [`m16`].
pub type m16x1 = Vector<m16, 1>;

/// A 32-bit vector containing 2 [`m16`]s.
pub type m16x2 = Vector<m16, 2>;

/// A 64-bit vector containing 4 [`m16`]s.
pub type m16x4 = Vector<m16, 4>;

/// A 128-bit vector containing 8 [`m16`]s.
pub type m16x8 = Vector<m16, 8>;

/// A 256-bit vector containing 16 [`m16`]s.
pub type m16x16 = Vector<m16, 16>;

/// A 512-bit vector containing 32 [`m16`]s.
pub type m16x32 = Vector<m16, 32>;

/// A 1024-bit vector containing 64 [`m16`]s.
pub type m16x64 = Vector<m16, 64>;

/// A 32-bit vector containing 1 [`m32`].
pub type m32x1 = Vector<m32, 1>;

/// A 64-bit vector containing 2 [`m32`]s.
pub type m32x2 = Vector<m32, 2>;

/// A 128-bit vector containing 4 [`m32`]s.
pub type m32x4 = Vector<m32, 4>;

/// A 256-bit vector containing 8 [`m32`]s.
pub type m32x8 = Vector<m32, 8>;

/// A 512-bit vector containing 16 [`m32`]s.
pub type m32x16 = Vector<m32, 16>;

/// A 1024-bit vector containing 32 [`m32`]s.
pub type m32x32 = Vector<m32, 32>;

/// A 2048-bit vector containing 64 [`m32`]s.
pub type m32x64 = Vector<m32, 64>;

/// A 64-bit vector containing 1 [`m64`].
pub type m64x1 = Vector<m64, 1>;

/// A 128-bit vector containing 2 [`m64`]s.
pub type m64x2 = Vector<m64, 2>;

/// A 256-bit vector containing 4 [`m64`]s.
pub type m64x4 = Vector<m64, 4>;

/// A 512-bit vector containing 8 [`m64`]s.
pub type m64x8 = Vector<m64, 8>;

/// A 1024-bit vector containing 16 [`m64`]s.
pub type m64x16 = Vector<m64, 16>;

/// A 2048-bit vector containing 32 [`m64`]s.
pub type m64x32 = Vector<m64, 32>;

/// A 4096-bit vector containing 64 [`m64`]s.
pub type m64x64 = Vector<m64, 64>;

} // verus!
