use crate::ordered::OrderTag;
use crate::simd::lane::{Float32, Float64};
use crate::simd::mask::{m16, m32, m64, m8, msize};
use vstd::prelude::*;

verus! {

/// Marker trait for types that do not need to be dropped.
///
/// A type implementing this indicates that it can be forgotten without
/// any side effects.
pub trait Forget {

}

/// `core::mem::forget` takes ownership of a value and never runs its destructor. It returns
/// nothing, and nothing is claimed of it.
pub assume_specification<T>[ core::mem::forget::<T> ](t: T)
;

/// Forget a type that is forgettable.
pub fn forget<T: Forget>(value: T) {
    core::mem::forget(value)
}

impl<T: Forget> Forget for [T] {}
impl<T: Forget, const N: usize> Forget for [T; N] {}

impl<T: ?Sized> Forget for &T {}
impl<T: ?Sized> Forget for &mut T {}

impl<T: Forget> Forget for Option<T> {}
impl<T: Forget, E: Forget> Forget for Result<T, E> {}

impl Forget for u8 {}
impl Forget for u16 {}
impl Forget for u32 {}
impl Forget for u64 {}
impl Forget for u128 {}
impl Forget for usize {}

impl Forget for i8 {}
impl Forget for i16 {}
impl Forget for i32 {}
impl Forget for i64 {}
impl Forget for i128 {}
impl Forget for isize {}

impl Forget for Float32 {}
impl Forget for Float64 {}

impl Forget for char {}
impl Forget for bool {}
impl Forget for str {}
impl Forget for OrderTag {}

impl Forget for m8 {}
impl Forget for m16 {}
impl Forget for m32 {}
impl Forget for m64 {}
impl Forget for msize {}

} // verus!
