use crate::ordered::OrderTag;
use crate::simd::lane::{Float32, Float64};
use crate::simd::mask::{m16, m32, m64, m8, msize};
use vstd::prelude::*;

verus! {

/// Trait for sealing types: the traits of this library that have it as a supertrait are
/// implemented here and nowhere else.
pub trait Sealed {

}

impl Sealed for u8 {}
impl Sealed for u16 {}
impl Sealed for u32 {}
impl Sealed for u64 {}
impl Sealed for u128 {}
impl Sealed for usize {}

impl Sealed for i8 {}
impl Sealed for i16 {}
impl Sealed for i32 {}
impl Sealed for i64 {}
impl Sealed for i128 {}
impl Sealed for isize {}

impl Sealed for Float32 {}
impl Sealed for Float64 {}

impl Sealed for bool {}
impl Sealed for char {}
impl Sealed for OrderTag {}

impl Sealed for m8 {}
impl Sealed for m16 {}
impl Sealed for m32 {}
impl Sealed for m64 {}
impl Sealed for msize {}

impl<T: Sealed> Sealed for [T] {}
impl<T: Sealed, const N: usize> Sealed for [T; N] {}

impl<T: Sealed> Sealed for Option<T> {}
impl<T: Sealed, E: Sealed> Sealed for Result<T, E> {}

impl<T: Sealed + ?Sized> Sealed for &T {}
impl<T: Sealed + ?Sized> Sealed for &mut T {}

} // verus!
