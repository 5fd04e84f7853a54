use super::forget::Forget;
use core::mem::MaybeUninit;
use vstd::prelude::*;
use vstd::std_specs::maybe_uninit::MaybeUninitAdditionalSpecFns;

verus! {

/// Marker trait for types that can be safely initialized with zero bytes.
pub trait Zeroable: Sized + Forget {
    /// The value of this type whose bytes are all zero.
    spec fn zero() -> Self;

    /// The value of this type whose bytes are all zero.
    fn zeroed() -> (r: Self)
        ensures
            r == Self::zero(),
    ;
}

/// Marker trait for types that can safely have an `all zeros` bit pattern.
pub trait AllZeros: Sized {

}

impl<T: Zeroable> AllZeros for T {

}

/// The value of `T` whose bytes are all zero.
pub fn zeroed<T: Zeroable>() -> (r: T)
    ensures
        r == T::zero(),
{
    T::zeroed()
}

/// Set every element of a slice to the zeroed value.
pub fn fill_zeros<T: Zeroable>(slice: &mut [T]) -> (r: &mut [T])
    ensures
        r@.len() == old(slice)@.len(),
        forall|i: int| 0 <= i < r@.len() ==> r@[i] == T::zero(),
        final(slice)@ == final(r)@,
{
    let len = slice.len();
    let mut i: usize = 0;
    while i < len
        invariant
            i <= len,
            slice@.len() == len,
            forall|j: int| 0 <= j < i ==> slice@[j] == T::zero(),
        decreases len - i,
    {
        slice[i] = T::zeroed();
        i += 1;
    }
    slice
}

/// Set a value to the zeroed value.
pub fn write_zeroed<T: Zeroable>(target: &mut T) -> (r: &mut T)
    ensures
        *r == T::zero(),
        *final(target) == *final(r),
{
    *target = T::zeroed();
    target
}

/// `MaybeUninit::write` sets the value of the slot, without dropping what was there, and
/// returns a mutable reference to the now initialized contents of the slot: what the
/// reference holds when the borrow ends is what the slot holds.
#[verifier::external_body]
fn write_slot<T>(slot: &mut MaybeUninit<T>, value: T) -> (r: &mut T)
    ensures
        *r == value,
        final(slot).as_option() == Some(*final(r)),
{
    slot.write(value)
}

/// Initialize a slot with the zeroed value.
pub fn init_zeroed<T: Zeroable>(target: &mut MaybeUninit<T>) -> (r: &mut T)
    ensures
        *r == T::zero(),
        final(target).as_option() == Some(*final(r)),
{
    write_slot(target, T::zeroed())
}

} // verus!
