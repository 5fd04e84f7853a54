use super::forget::Forget;
use crate::ordered::{is_ge, is_le, rank, OrderTag, Ordered};
use crate::sealed::Sealed;
use crate::simd::mask::{m16, m32, m64, m8, msize};
use vstd::prelude::*;

verus! {

/// Marker trait for types that are represented in memory as some integer in some
/// contigous range of values.
///
/// Implementors:
///
/// - Have no gaps between `Self::MIN..=Self::MAX`: every integer in the range is the
///   representation of a value.
///
/// - Ensure that `Self::MIN <= Self::MAX`.
///
/// - All values in the range `Self::MIN..=Self::MAX` have
///   exactly one interpretation as a `Self`.
///
/// - All values of `Self` can be represented as a `Self::Int`.
pub trait Contiguous: Sealed + Copy + Forget {
    /// The integer type that represents this type.
    type Int: Ordered;

    /// The lower ***inclusive*** bound of this type.
    const MIN: Self::Int;

    /// The upper ***inclusive*** bound of this type.
    const MAX: Self::Int;

    /// The value of `MIN`.
    spec fn min_int() -> Self::Int;

    /// The value of `MAX`.
    spec fn max_int() -> Self::Int;

    /// The integer that represents this value.
    spec fn repr_int(self) -> Self::Int;

    /// The range is not empty, the representation of every value lies in it, and values
    /// with the same representation are the same value.
    proof fn contiguous_laws(a: Self, b: Self)
        ensures
            Self::MIN == Self::min_int(),
            Self::MAX == Self::max_int(),
            rank(Self::min_int()) <= rank(Self::max_int()),
            rank(Self::min_int()) <= rank(a.repr_int()) <= rank(Self::max_int()),
            a.repr_int() == b.repr_int() ==> a == b,
    ;

    /// There are no gaps: every integer of the range represents a value.
    proof fn no_gaps(raw: Self::Int)
        requires
            rank(Self::min_int()) <= rank(raw) <= rank(Self::max_int()),
        ensures
            exists|value: Self| value.repr_int() == raw,
    ;

    /// The value that an integer of the range represents.
    fn from_int_unchecked(raw: Self::Int) -> (r: Self)
        requires
            rank(Self::min_int()) <= rank(raw) <= rank(Self::max_int()),
        ensures
            r.repr_int() == raw,
    ;

    /// Convert an integer to a `T` if it lies within the acceptable range
    /// of values for `T`.
    fn from_int(raw: Self::Int) -> (r: Option<Self>)
        ensures
            r.is_some() == (rank(Self::min_int()) <= rank(raw) <= rank(Self::max_int())),
            r matches Some(value) ==> value.repr_int() == raw,
    {
        proof {
            let value: Self = arbitrary();
            Self::contiguous_laws(value, value);
        }
        if is_le(Self::MIN, raw) && is_ge(Self::MAX, raw) {
            Some(Self::from_int_unchecked(raw))
        } else {
            None
        }
    }

    /// Convert a `T` into its underlying integer type.
    fn to_int(self) -> (r: Self::Int)
        ensures
            r == self.repr_int(),
    ;
}

/// Whether an integer has a valid bit pattern for a `T`: whether it lies in the range
/// from `T::MIN` to `T::MAX`, both ends included.
pub open spec fn spec_is_valid<T: Contiguous>(raw: T::Int) -> bool {
    rank(T::min_int()) <= rank(raw) <= rank(T::max_int())
}

/// Returns whether a given integer has a valid bit pattern for a `T`
#[verifier::when_used_as_spec(spec_is_valid)]
pub fn is_valid<T: Contiguous>(raw: T::Int) -> (r: bool)
    ensures
        r == spec_is_valid::<T>(raw),
{
    proof {
        let value: T = arbitrary();
        T::contiguous_laws(value, value);
    }
    let above = is_le(T::MIN, raw);
    let below = is_ge(T::MAX, raw);
    above && below
}

/// Convert an integer to a `T` if it lies within the acceptable range
/// of values for `T`.
pub fn from_int<T: Contiguous>(raw: T::Int) -> (r: Option<T>)
    ensures
        r.is_some() == is_valid::<T>(raw),
        r matches Some(value) ==> value.repr_int() == raw,
{
    if is_valid::<T>(raw) {
        Some(T::from_int_unchecked(raw))
    } else {
        None
    }
}

/// Convert a `T` into its underlying integer type.
pub fn to_int<T: Contiguous>(value: T) -> (r: T::Int)
    ensures
        r == value.repr_int(),
        is_valid::<T>(r),
{
    proof {
        T::contiguous_laws(value, value);
    }
    value.to_int()
}

/// The ends of the range are valid, and nothing outside of them is.
pub proof fn lemma_range_boundaries<T: Contiguous>(raw: T::Int)
    ensures
        is_valid::<T>(T::MIN),
        is_valid::<T>(T::MAX),
        rank(raw) < rank(T::MIN) ==> !is_valid::<T>(raw),
        rank(raw) > rank(T::MAX) ==> !is_valid::<T>(raw),
        rank(T::MIN) <= rank(raw) <= rank(T::MAX) ==> is_valid::<T>(raw),
{
    let value: T = arbitrary();
    T::contiguous_laws(value, value);
}

/// A value converted to its integer and back is the value it was.
pub proof fn lemma_int_round_trip<T: Contiguous>(value: T, back: T)
    requires
        back.repr_int() == value.repr_int(),
    ensures
        back == value,
{
    T::contiguous_laws(back, value);
}

impl Contiguous for u8 {
    type Int = u8;

    const MIN: u8 = u8::MIN;

    const MAX: u8 = u8::MAX;

    open spec fn min_int() -> u8 {
        u8::MIN
    }

    open spec fn max_int() -> u8 {
        u8::MAX
    }

    open spec fn repr_int(self) -> u8 {
        self
    }

    proof fn contiguous_laws(a: Self, b: Self) {
        assert(<Self as Contiguous>::MIN == Self::min_int());
        assert(<Self as Contiguous>::MAX == Self::max_int());
        assert(rank(Self::min_int()) == Self::min_int() as int);
        assert(rank(Self::max_int()) == Self::max_int() as int);
        assert(rank(a.repr_int()) == a.repr_int() as int);
    }

    proof fn no_gaps(raw: Self::Int) {
        assert(raw.repr_int() == raw);
    }

    fn from_int_unchecked(raw: u8) -> (r: Self) {
        raw
    }

    fn to_int(self) -> (r: u8) {
        self
    }
}

impl Contiguous for u16 {
    type Int = u16;

    const MIN: u16 = u16::MIN;

    const MAX: u16 = u16::MAX;

    open spec fn min_int() -> u16 {
        u16::MIN
    }

    open spec fn max_int() -> u16 {
        u16::MAX
    }

    open spec fn repr_int(self) -> u16 {
        self
    }

    proof fn contiguous_laws(a: Self, b: Self) {
        assert(<Self as Contiguous>::MIN == Self::min_int());
        assert(<Self as Contiguous>::MAX == Self::max_int());
        assert(rank(Self::min_int()) == Self::min_int() as int);
        assert(rank(Self::max_int()) == Self::max_int() as int);
        assert(rank(a.repr_int()) == a.repr_int() as int);
    }

    proof fn no_gaps(raw: Self::Int) {
        assert(raw.repr_int() == raw);
    }

    fn from_int_unchecked(raw: u16) -> (r: Self) {
        raw
    }

    fn to_int(self) -> (r: u16) {
        self
    }
}

impl Contiguous for u32 {
    type Int = u32;

    const MIN: u32 = u32::MIN;

    const MAX: u32 = u32::MAX;

    open spec fn min_int() -> u32 {
        u32::MIN
    }

    open spec fn max_int() -> u32 {
        u32::MAX
    }

    open spec fn repr_int(self) -> u32 {
        self
    }

    proof fn contiguous_laws(a: Self, b: Self) {
        assert(<Self as Contiguous>::MIN == Self::min_int());
        assert(<Self as Contiguous>::MAX == Self::max_int());
        assert(rank(Self::min_int()) == Self::min_int() as int);
        assert(rank(Self::max_int()) == Self::max_int() as int);
        assert(rank(a.repr_int()) == a.repr_int() as int);
    }

    proof fn no_gaps(raw: Self::Int) {
        assert(raw.repr_int() == raw);
    }

    fn from_int_unchecked(raw: u32) -> (r: Self) {
        raw
    }

    fn to_int(self) -> (r: u32) {
        self
    }
}

impl Contiguous for u64 {
    type Int = u64;

    const MIN: u64 = u64::MIN;

    const MAX: u64 = u64::MAX;

    open spec fn min_int() -> u64 {
        u64::MIN
    }

    open spec fn max_int() -> u64 {
        u64::MAX
    }

    open spec fn repr_int(self) -> u64 {
        self
    }

    proof fn contiguous_laws(a: Self, b: Self) {
        assert(<Self as Contiguous>::MIN == Self::min_int());
        assert(<Self as Contiguous>::MAX == Self::max_int());
        assert(rank(Self::min_int()) == Self::min_int() as int);
        assert(rank(Self::max_int()) == Self::max_int() as int);
        assert(rank(a.repr_int()) == a.repr_int() as int);
    }

    proof fn no_gaps(raw: Self::Int) {
        assert(raw.repr_int() == raw);
    }

    fn from_int_unchecked(raw: u64) -> (r: Self) {
        raw
    }

    fn to_int(self) -> (r: u64) {
        self
    }
}

impl Contiguous for u128 {
    type Int = u128;

    const MIN: u128 = u128::MIN;

    const MAX: u128 = u128::MAX;

    open spec fn min_int() -> u128 {
        u128::MIN
    }

    open spec fn max_int() -> u128 {
        u128::MAX
    }

    open spec fn repr_int(self) -> u128 {
        self
    }

    proof fn contiguous_laws(a: Self, b: Self) {
        assert(<Self as Contiguous>::MIN == Self::min_int());
        assert(<Self as Contiguous>::MAX == Self::max_int());
        assert(rank(Self::min_int()) == Self::min_int() as int);
        assert(rank(Self::max_int()) == Self::max_int() as int);
        assert(rank(a.repr_int()) == a.repr_int() as int);
    }

    proof fn no_gaps(raw: Self::Int) {
        assert(raw.repr_int() == raw);
    }

    fn from_int_unchecked(raw: u128) -> (r: Self) {
        raw
    }

    fn to_int(self) -> (r: u128) {
        self
    }
}

impl Contiguous for usize {
    type Int = usize;

    const MIN: usize = usize::MIN;

    const MAX: usize = usize::MAX;

    open spec fn min_int() -> usize {
        usize::MIN
    }

    open spec fn max_int() -> usize {
        usize::MAX
    }

    open spec fn repr_int(self) -> usize {
        self
    }

    proof fn contiguous_laws(a: Self, b: Self) {
        assert(<Self as Contiguous>::MIN == Self::min_int());
        assert(<Self as Contiguous>::MAX == Self::max_int());
        assert(rank(Self::min_int()) == Self::min_int() as int);
        assert(rank(Self::max_int()) == Self::max_int() as int);
        assert(rank(a.repr_int()) == a.repr_int() as int);
    }

    proof fn no_gaps(raw: Self::Int) {
        assert(raw.repr_int() == raw);
    }

    fn from_int_unchecked(raw: usize) -> (r: Self) {
        raw
    }

    fn to_int(self) -> (r: usize) {
        self
    }
}

impl Contiguous for i8 {
    type Int = i8;

    const MIN: i8 = i8::MIN;

    const MAX: i8 = i8::MAX;

    open spec fn min_int() -> i8 {
        i8::MIN
    }

    open spec fn max_int() -> i8 {
        i8::MAX
    }

    open spec fn repr_int(self) -> i8 {
        self
    }

    proof fn contiguous_laws(a: Self, b: Self) {
        assert(<Self as Contiguous>::MIN == Self::min_int());
        assert(<Self as Contiguous>::MAX == Self::max_int());
        assert(rank(Self::min_int()) == Self::min_int() as int);
        assert(rank(Self::max_int()) == Self::max_int() as int);
        assert(rank(a.repr_int()) == a.repr_int() as int);
    }

    proof fn no_gaps(raw: Self::Int) {
        assert(raw.repr_int() == raw);
    }

    fn from_int_unchecked(raw: i8) -> (r: Self) {
        raw
    }

    fn to_int(self) -> (r: i8) {
        self
    }
}

impl Contiguous for i16 {
    type Int = i16;

    const MIN: i16 = i16::MIN;

    const MAX: i16 = i16::MAX;

    open spec fn min_int() -> i16 {
        i16::MIN
    }

    open spec fn max_int() -> i16 {
        i16::MAX
    }

    open spec fn repr_int(self) -> i16 {
        self
    }

    proof fn contiguous_laws(a: Self, b: Self) {
        assert(<Self as Contiguous>::MIN == Self::min_int());
        assert(<Self as Contiguous>::MAX == Self::max_int());
        assert(rank(Self::min_int()) == Self::min_int() as int);
        assert(rank(Self::max_int()) == Self::max_int() as int);
        assert(rank(a.repr_int()) == a.repr_int() as int);
    }

    proof fn no_gaps(raw: Self::Int) {
        assert(raw.repr_int() == raw);
    }

    fn from_int_unchecked(raw: i16) -> (r: Self) {
        raw
    }

    fn to_int(self) -> (r: i16) {
        self
    }
}

impl Contiguous for i32 {
    type Int = i32;

    const MIN: i32 = i32::MIN;

    const MAX: i32 = i32::MAX;

    open spec fn min_int() -> i32 {
        i32::MIN
    }

    open spec fn max_int() -> i32 {
        i32::MAX
    }

    open spec fn repr_int(self) -> i32 {
        self
    }

    proof fn contiguous_laws(a: Self, b: Self) {
        assert(<Self as Contiguous>::MIN == Self::min_int());
        assert(<Self as Contiguous>::MAX == Self::max_int());
        assert(rank(Self::min_int()) == Self::min_int() as int);
        assert(rank(Self::max_int()) == Self::max_int() as int);
        assert(rank(a.repr_int()) == a.repr_int() as int);
    }

    proof fn no_gaps(raw: Self::Int) {
        assert(raw.repr_int() == raw);
    }

    fn from_int_unchecked(raw: i32) -> (r: Self) {
        raw
    }

    fn to_int(self) -> (r: i32) {
        self
    }
}

impl Contiguous for i64 {
    type Int = i64;

    const MIN: i64 = i64::MIN;

    const MAX: i64 = i64::MAX;

    open spec fn min_int() -> i64 {
        i64::MIN
    }

    open spec fn max_int() -> i64 {
        i64::MAX
    }

    open spec fn repr_int(self) -> i64 {
        self
    }

    proof fn contiguous_laws(a: Self, b: Self) {
        assert(<Self as Contiguous>::MIN == Self::min_int());
        assert(<Self as Contiguous>::MAX == Self::max_int());
        assert(rank(Self::min_int()) == Self::min_int() as int);
        assert(rank(Self::max_int()) == Self::max_int() as int);
        assert(rank(a.repr_int()) == a.repr_int() as int);
    }

    proof fn no_gaps(raw: Self::Int) {
        assert(raw.repr_int() == raw);
    }

    fn from_int_unchecked(raw: i64) -> (r: Self) {
        raw
    }

    fn to_int(self) -> (r: i64) {
        self
    }
}

impl Contiguous for i128 {
    type Int = i128;

    const MIN: i128 = i128::MIN;

    const MAX: i128 = i128::MAX;

    open spec fn min_int() -> i128 {
        i128::MIN
    }

    open spec fn max_int() -> i128 {
        i128::MAX
    }

    open spec fn repr_int(self) -> i128 {
        self
    }

    proof fn contiguous_laws(a: Self, b: Self) {
        assert(<Self as Contiguous>::MIN == Self::min_int());
        assert(<Self as Contiguous>::MAX == Self::max_int());
        assert(rank(Self::min_int()) == Self::min_int() as int);
        assert(rank(Self::max_int()) == Self::max_int() as int);
        assert(rank(a.repr_int()) == a.repr_int() as int);
    }

    proof fn no_gaps(raw: Self::Int) {
        assert(raw.repr_int() == raw);
    }

    fn from_int_unchecked(raw: i128) -> (r: Self) {
        raw
    }

    fn to_int(self) -> (r: i128) {
        self
    }
}

impl Contiguous for isize {
    type Int = isize;

    const MIN: isize = isize::MIN;

    const MAX: isize = isize::MAX;

    open spec fn min_int() -> isize {
        isize::MIN
    }

    open spec fn max_int() -> isize {
        isize::MAX
    }

    open spec fn repr_int(self) -> isize {
        self
    }

    proof fn contiguous_laws(a: Self, b: Self) {
        assert(<Self as Contiguous>::MIN == Self::min_int());
        assert(<Self as Contiguous>::MAX == Self::max_int());
        assert(rank(Self::min_int()) == Self::min_int() as int);
        assert(rank(Self::max_int()) == Self::max_int() as int);
        assert(rank(a.repr_int()) == a.repr_int() as int);
    }

    proof fn no_gaps(raw: Self::Int) {
        assert(raw.repr_int() == raw);
    }

    fn from_int_unchecked(raw: isize) -> (r: Self) {
        raw
    }

    fn to_int(self) -> (r: isize) {
        self
    }
}

impl Contiguous for bool {
    type Int = u8;

    const MIN: u8 = 0;

    const MAX: u8 = 1;

    open spec fn min_int() -> u8 {
        0
    }

    open spec fn max_int() -> u8 {
        1
    }

    open spec fn repr_int(self) -> u8 {
        if self {
            1
        } else {
            0
        }
    }

    proof fn contiguous_laws(a: Self, b: Self) {
        assert(<Self as Contiguous>::MIN == Self::min_int());
        assert(<Self as Contiguous>::MAX == Self::max_int());
        assert(rank(Self::min_int()) == Self::min_int() as int);
        assert(rank(Self::max_int()) == Self::max_int() as int);
        assert(rank(a.repr_int()) == a.repr_int() as int);
    }

    proof fn no_gaps(raw: Self::Int) {
        assert(rank(Self::min_int()) == 0 && rank(Self::max_int()) == 1 && rank(raw) == raw as int);
        assert((raw == 1u8).repr_int() == raw);
    }

    fn from_int_unchecked(raw: u8) -> (r: Self) {
        raw != 0
    }

    fn to_int(self) -> (r: u8) {
        if self {
            1
        } else {
            0
        }
    }
}

impl Contiguous for OrderTag {
    type Int = i8;

    const MIN: i8 = -1;

    const MAX: i8 = 1;

    open spec fn min_int() -> i8 {
        -1i8
    }

    open spec fn max_int() -> i8 {
        1
    }

    open spec fn repr_int(self) -> i8 {
        match self {
            OrderTag::Less => -1i8,
            OrderTag::Equal => 0i8,
            OrderTag::Greater => 1i8,
        }
    }

    proof fn contiguous_laws(a: Self, b: Self) {
        assert(<Self as Contiguous>::MIN == Self::min_int());
        assert(<Self as Contiguous>::MAX == Self::max_int());
        assert(rank(Self::min_int()) == Self::min_int() as int);
        assert(rank(Self::max_int()) == Self::max_int() as int);
        assert(rank(a.repr_int()) == a.repr_int() as int);
    }

    proof fn no_gaps(raw: Self::Int) {
        assert(rank(Self::min_int()) == -1 && rank(Self::max_int()) == 1 && rank(raw) == raw as int);
        if raw == -1 {
            assert(OrderTag::Less.repr_int() == raw);
        } else if raw == 0 {
            assert(OrderTag::Equal.repr_int() == raw);
        } else {
            assert(OrderTag::Greater.repr_int() == raw);
        }
    }

    fn from_int_unchecked(raw: i8) -> (r: Self) {
        if raw < 0 {
            OrderTag::Less
        } else if raw == 0 {
            OrderTag::Equal
        } else {
            OrderTag::Greater
        }
    }

    fn to_int(self) -> (r: i8) {
        match self {
            OrderTag::Less => -1,
            OrderTag::Equal => 0,
            OrderTag::Greater => 1,
        }
    }
}

impl Contiguous for m8 {
    type Int = i8;

    const MIN: i8 = -1;

    const MAX: i8 = 0;

    open spec fn min_int() -> i8 {
        -1i8
    }

    open spec fn max_int() -> i8 {
        0
    }

    open spec fn repr_int(self) -> i8 {
        self.repr()
    }

    proof fn contiguous_laws(a: Self, b: Self) {
        assert(<Self as Contiguous>::MIN == Self::min_int());
        assert(<Self as Contiguous>::MAX == Self::max_int());
        assert(rank(Self::min_int()) == Self::min_int() as int);
        assert(rank(Self::max_int()) == Self::max_int() as int);
        assert(rank(a.repr_int()) == a.repr_int() as int);
    }

    proof fn no_gaps(raw: Self::Int) {
        assert(rank(Self::min_int()) == -1 && rank(Self::max_int()) == 0 && rank(raw) == raw as int);
        if raw == 0 {
            assert(m8::False.repr_int() == raw);
        } else {
            assert(m8::True.repr_int() == raw);
        }
    }

    fn from_int_unchecked(raw: i8) -> (r: Self) {
        m8::from_repr_unchecked(raw)
    }

    fn to_int(self) -> (r: i8) {
        self.to_repr()
    }
}

impl Contiguous for m16 {
    type Int = i16;

    const MIN: i16 = -1;

    const MAX: i16 = 0;

    open spec fn min_int() -> i16 {
        -1i16
    }

    open spec fn max_int() -> i16 {
        0
    }

    open spec fn repr_int(self) -> i16 {
        self.repr()
    }

    proof fn contiguous_laws(a: Self, b: Self) {
        assert(<Self as Contiguous>::MIN == Self::min_int());
        assert(<Self as Contiguous>::MAX == Self::max_int());
        assert(rank(Self::min_int()) == Self::min_int() as int);
        assert(rank(Self::max_int()) == Self::max_int() as int);
        assert(rank(a.repr_int()) == a.repr_int() as int);
    }

    proof fn no_gaps(raw: Self::Int) {
        assert(rank(Self::min_int()) == -1 && rank(Self::max_int()) == 0 && rank(raw) == raw as int);
        if raw == 0 {
            assert(m16::False.repr_int() == raw);
        } else {
            assert(m16::True.repr_int() == raw);
        }
    }

    fn from_int_unchecked(raw: i16) -> (r: Self) {
        m16::from_repr_unchecked(raw)
    }

    fn to_int(self) -> (r: i16) {
        self.to_repr()
    }
}

impl Contiguous for m32 {
    type Int = i32;

    const MIN: i32 = -1;

    const MAX: i32 = 0;

    open spec fn min_int() -> i32 {
        -1i32
    }

    open spec fn max_int() -> i32 {
        0
    }

    open spec fn repr_int(self) -> i32 {
        self.repr()
    }

    proof fn contiguous_laws(a: Self, b: Self) {
        assert(<Self as Contiguous>::MIN == Self::min_int());
        assert(<Self as Contiguous>::MAX == Self::max_int());
        assert(rank(Self::min_int()) == Self::min_int() as int);
        assert(rank(Self::max_int()) == Self::max_int() as int);
        assert(rank(a.repr_int()) == a.repr_int() as int);
    }

    proof fn no_gaps(raw: Self::Int) {
        assert(rank(Self::min_int()) == -1 && rank(Self::max_int()) == 0 && rank(raw) == raw as int);
        if raw == 0 {
            assert(m32::False.repr_int() == raw);
        } else {
            assert(m32::True.repr_int() == raw);
        }
    }

    fn from_int_unchecked(raw: i32) -> (r: Self) {
        m32::from_repr_unchecked(raw)
    }

    fn to_int(self) -> (r: i32) {
        self.to_repr()
    }
}

impl Contiguous for m64 {
    type Int = i64;

    const MIN: i64 = -1;

    const MAX: i64 = 0;

    open spec fn min_int() -> i64 {
        -1i64
    }

    open spec fn max_int() -> i64 {
        0
    }

    open spec fn repr_int(self) -> i64 {
        self.repr()
    }

    proof fn contiguous_laws(a: Self, b: Self) {
        assert(<Self as Contiguous>::MIN == Self::min_int());
        assert(<Self as Contiguous>::MAX == Self::max_int());
        assert(rank(Self::min_int()) == Self::min_int() as int);
        assert(rank(Self::max_int()) == Self::max_int() as int);
        assert(rank(a.repr_int()) == a.repr_int() as int);
    }

    proof fn no_gaps(raw: Self::Int) {
        assert(rank(Self::min_int()) == -1 && rank(Self::max_int()) == 0 && rank(raw) == raw as int);
        if raw == 0 {
            assert(m64::False.repr_int() == raw);
        } else {
            assert(m64::True.repr_int() == raw);
        }
    }

    fn from_int_unchecked(raw: i64) -> (r: Self) {
        m64::from_repr_unchecked(raw)
    }

    fn to_int(self) -> (r: i64) {
        self.to_repr()
    }
}

impl Contiguous for msize {
    type Int = isize;

    const MIN: isize = -1;

    const MAX: isize = 0;

    open spec fn min_int() -> isize {
        -1isize
    }

    open spec fn max_int() -> isize {
        0
    }

    open spec fn repr_int(self) -> isize {
        self.repr()
    }

    proof fn contiguous_laws(a: Self, b: Self) {
        assert(<Self as Contiguous>::MIN == Self::min_int());
        assert(<Self as Contiguous>::MAX == Self::max_int());
        assert(rank(Self::min_int()) == Self::min_int() as int);
        assert(rank(Self::max_int()) == Self::max_int() as int);
        assert(rank(a.repr_int()) == a.repr_int() as int);
    }

    proof fn no_gaps(raw: Self::Int) {
        assert(rank(Self::min_int()) == -1 && rank(Self::max_int()) == 0 && rank(raw) == raw as int);
        if raw == 0 {
            assert(msize::False.repr_int() == raw);
        } else {
            assert(msize::True.repr_int() == raw);
        }
    }

    fn from_int_unchecked(raw: isize) -> (r: Self) {
        msize::from_repr_unchecked(raw)
    }

    fn to_int(self) -> (r: isize) {
        self.to_repr()
    }
}

} // verus!
