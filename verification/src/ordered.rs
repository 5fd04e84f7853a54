use core::cmp::Ordering;
use vstd::pervasive::unreached;
use vstd::prelude::*;

verus! {

/// The outcome of a comparison as a type of this library, ordered `Less < Equal < Greater`.
#[derive(Debug, Clone, Copy, PartialEq, Eq, Structural, Hash)]
pub enum OrderTag {
    Less,
    Equal,
    Greater,
}

impl OrderTag {
    /// The integer that stands for this outcome: -1, 0 or 1.
    pub open spec fn sign(self) -> int {
        match self {
            OrderTag::Less => -1,
            OrderTag::Equal => 0,
            OrderTag::Greater => 1,
        }
    }

    pub fn from_ordering(o: Ordering) -> (r: OrderTag)
        ensures
            r.sign() == sign_of(o),
    {
        match o {
            Ordering::Less => OrderTag::Less,
            Ordering::Equal => OrderTag::Equal,
            Ordering::Greater => OrderTag::Greater,
        }
    }

    pub fn to_ordering(self) -> (r: Ordering)
        ensures
            sign_of(r) == self.sign(),
    {
        match self {
            OrderTag::Less => Ordering::Less,
            OrderTag::Equal => Ordering::Equal,
            OrderTag::Greater => Ordering::Greater,
        }
    }
}

/// The integer that stands for an `Ordering`: -1, 0 or 1.
pub open spec fn sign_of(o: Ordering) -> int {
    match o {
        Ordering::Less => -1,
        Ordering::Equal => 0,
        Ordering::Greater => 1,
    }
}

/// How two positions in an order compare.
pub open spec fn order_of(lhs: int, rhs: int) -> Ordering {
    if lhs < rhs {
        Ordering::Less
    } else if lhs == rhs {
        Ordering::Equal
    } else {
        Ordering::Greater
    }
}

/// A value of one of the comparable primitive types, together with which type it is.
#[non_exhaustive]
#[derive(Debug, Clone, Copy)]
pub enum Wit {
    Bool(bool),
    Char(char),
    Tag(OrderTag),
    U8(u8),
    U16(u16),
    U32(u32),
    U64(u64),
    U128(u128),
    Usize(usize),
    I8(i8),
    I16(i16),
    I32(i32),
    I64(i64),
    I128(i128),
    Isize(isize),
}

impl Wit {
    /// The position of the witnessed value in the order of its type.
    pub open spec fn rank(self) -> int {
        match self {
            Wit::Bool(b) => if b { 1 } else { 0 },
            Wit::Char(c) => c as int,
            Wit::Tag(t) => t.sign(),
            Wit::U8(v) => v as int,
            Wit::U16(v) => v as int,
            Wit::U32(v) => v as int,
            Wit::U64(v) => v as int,
            Wit::U128(v) => v as int,
            Wit::Usize(v) => v as int,
            Wit::I8(v) => v as int,
            Wit::I16(v) => v as int,
            Wit::I32(v) => v as int,
            Wit::I64(v) => v as int,
            Wit::I128(v) => v as int,
            Wit::Isize(v) => v as int,
        }
    }

    /// Whether two witnesses are of the same primitive type.
    pub open spec fn same_type(self, other: Wit) -> bool {
        match (self, other) {
            (Wit::Bool(_), Wit::Bool(_)) => true,
            (Wit::Char(_), Wit::Char(_)) => true,
            (Wit::Tag(_), Wit::Tag(_)) => true,
            (Wit::U8(_), Wit::U8(_)) => true,
            (Wit::U16(_), Wit::U16(_)) => true,
            (Wit::U32(_), Wit::U32(_)) => true,
            (Wit::U64(_), Wit::U64(_)) => true,
            (Wit::U128(_), Wit::U128(_)) => true,
            (Wit::Usize(_), Wit::Usize(_)) => true,
            (Wit::I8(_), Wit::I8(_)) => true,
            (Wit::I16(_), Wit::I16(_)) => true,
            (Wit::I32(_), Wit::I32(_)) => true,
            (Wit::I64(_), Wit::I64(_)) => true,
            (Wit::I128(_), Wit::I128(_)) => true,
            (Wit::Isize(_), Wit::Isize(_)) => true,
            _ => false,
        }
    }
}

/// The types that can be compared here: each value shows itself as a [`Wit`].
pub trait Sealed: Copy + Sized {
    /// The value as a witness.
    spec fn wit(self) -> Wit;

    /// All values of one type are witnessed under the same variant.
    proof fn wit_same_type(a: Self, b: Self)
        ensures
            a.wit().same_type(b.wit()),
    ;

    /// Values with the same rank are the same value.
    proof fn rank_injective(a: Self, b: Self)
        requires
            a.wit().rank() == b.wit().rank(),
        ensures
            a == b,
    ;

    fn witness(self) -> (w: Wit)
        ensures
            w == self.wit(),
    ;
}

/// The position of `x` in the order of its type.
pub open spec fn rank<T: Sealed>(x: T) -> int {
    x.wit().rank()
}

/// Types with a total order that has a least and a greatest value.
pub trait Ordered: Sealed {
    /// The lower inclusive bound of this type.
    const MIN: Self;

    /// The upper inclusive bound of this type.
    const MAX: Self;

    /// No value lies below `MIN` or above `MAX`.
    proof fn bounded(x: Self)
        ensures
            rank(Self::MIN) <= rank(x) <= rank(Self::MAX),
    ;

    /// Compare two values.
    fn compare(self, rhs: Self) -> (r: Ordering)
        ensures
            r == order_of(rank(self), rank(rhs)),
    {
        _compare(self, rhs)
    }
}

/// Compare two [`Ordered`] values.
pub fn compare<T: Ordered>(lhs: T, rhs: T) -> (r: Ordering)
    ensures
        r == order_of(rank(lhs), rank(rhs)),
{
    _compare(lhs, rhs)
}

/// The least value of a type is not above its greatest.
pub proof fn lemma_min_le_max<T: Ordered>()
    ensures
        rank(T::MIN) <= rank(T::MAX),
{
    T::bounded(T::MAX);
}

/// Determine if `lhs == rhs`.
pub fn is_eq<T: Ordered>(lhs: T, rhs: T) -> (r: bool)
    ensures
        r == (rank(lhs) == rank(rhs)),
        r == (lhs == rhs),
{
    proof {
        if rank(lhs) == rank(rhs) {
            T::rank_injective(lhs, rhs);
        }
    }
    matches!(compare(lhs, rhs), Ordering::Equal)
}

/// Determine if `lhs != rhs`.
pub fn is_ne<T: Ordered>(lhs: T, rhs: T) -> (r: bool)
    ensures
        r == (rank(lhs) != rank(rhs)),
        r == (lhs != rhs),
{
    proof {
        if rank(lhs) == rank(rhs) {
            T::rank_injective(lhs, rhs);
        }
    }
    !matches!(compare(lhs, rhs), Ordering::Equal)
}

/// Determine if `lhs > rhs`.
pub fn is_gt<T: Ordered>(lhs: T, rhs: T) -> (r: bool)
    ensures
        r == (rank(lhs) > rank(rhs)),
{
    matches!(compare(lhs, rhs), Ordering::Greater)
}

/// Determine if `lhs >= rhs`.
pub fn is_ge<T: Ordered>(lhs: T, rhs: T) -> (r: bool)
    ensures
        r == (rank(lhs) >= rank(rhs)),
{
    !matches!(compare(lhs, rhs), Ordering::Less)
}

/// Determine if `lhs < rhs`.
pub fn is_lt<T: Ordered>(lhs: T, rhs: T) -> (r: bool)
    ensures
        r == (rank(lhs) < rank(rhs)),
{
    matches!(compare(lhs, rhs), Ordering::Less)
}

/// Determine if `lhs <= rhs`.
pub fn is_le<T: Ordered>(lhs: T, rhs: T) -> (r: bool)
    ensures
        r == (rank(lhs) <= rank(rhs)),
{
    !matches!(compare(lhs, rhs), Ordering::Greater)
}

/// The ordering told by the two strict comparisons of a pair.
fn pick(less: bool, greater: bool) -> (r: Ordering)
    requires
        !(less && greater),
    ensures
        r == (if less {
            Ordering::Less
        } else if greater {
            Ordering::Greater
        } else {
            Ordering::Equal
        }),
{
    if less {
        Ordering::Less
    } else if greater {
        Ordering::Greater
    } else {
        Ordering::Equal
    }
}

/// Compare two values by what they witness.
pub fn _compare<T: Sealed>(lhs: T, rhs: T) -> (r: Ordering)
    ensures
        r == order_of(rank(lhs), rank(rhs)),
{
    proof {
        T::wit_same_type(lhs, rhs);
    }
    match (lhs.witness(), rhs.witness()) {
        (Wit::Bool(l), Wit::Bool(r)) => pick(!l && r, l && !r),
        (Wit::Char(l), Wit::Char(r)) => pick(l < r, l > r),
        (Wit::Tag(l), Wit::Tag(r)) => match (l, r) {
            (OrderTag::Less, OrderTag::Less) => Ordering::Equal,
            (OrderTag::Less, _) => Ordering::Less,
            (OrderTag::Equal, OrderTag::Less) => Ordering::Greater,
            (OrderTag::Equal, OrderTag::Equal) => Ordering::Equal,
            (OrderTag::Equal, OrderTag::Greater) => Ordering::Less,
            (OrderTag::Greater, OrderTag::Greater) => Ordering::Equal,
            (OrderTag::Greater, _) => Ordering::Greater,
        },
        (Wit::U8(l), Wit::U8(r)) => pick(l < r, l > r),
        (Wit::U16(l), Wit::U16(r)) => pick(l < r, l > r),
        (Wit::U32(l), Wit::U32(r)) => pick(l < r, l > r),
        (Wit::U64(l), Wit::U64(r)) => pick(l < r, l > r),
        (Wit::U128(l), Wit::U128(r)) => pick(l < r, l > r),
        (Wit::Usize(l), Wit::Usize(r)) => pick(l < r, l > r),
        (Wit::I8(l), Wit::I8(r)) => pick(l < r, l > r),
        (Wit::I16(l), Wit::I16(r)) => pick(l < r, l > r),
        (Wit::I32(l), Wit::I32(r)) => pick(l < r, l > r),
        (Wit::I64(l), Wit::I64(r)) => pick(l < r, l > r),
        (Wit::I128(l), Wit::I128(r)) => pick(l < r, l > r),
        (Wit::Isize(l), Wit::Isize(r)) => pick(l < r, l > r),
        _ => unreached(),
    }
}

impl Sealed for bool {
    open spec fn wit(self) -> Wit {
        Wit::Bool(self)
    }

    proof fn wit_same_type(a: Self, b: Self) {
    }

    proof fn rank_injective(a: Self, b: Self) {
    }

    fn witness(self) -> (w: Wit) {
        Wit::Bool(self)
    }
}

impl Ordered for bool {
    const MIN: bool = false;

    const MAX: bool = true;

    proof fn bounded(x: Self) {
    }
}

impl Sealed for char {
    open spec fn wit(self) -> Wit {
        Wit::Char(self)
    }

    proof fn wit_same_type(a: Self, b: Self) {
    }

    proof fn rank_injective(a: Self, b: Self) {
    }

    fn witness(self) -> (w: Wit) {
        Wit::Char(self)
    }
}

impl Ordered for char {
    const MIN: char = '\0';

    const MAX: char = '\u{10FFFF}';

    proof fn bounded(x: Self) {
    }
}

impl Sealed for OrderTag {
    open spec fn wit(self) -> Wit {
        Wit::Tag(self)
    }

    proof fn wit_same_type(a: Self, b: Self) {
    }

    proof fn rank_injective(a: Self, b: Self) {
    }

    fn witness(self) -> (w: Wit) {
        Wit::Tag(self)
    }
}

impl Ordered for OrderTag {
    const MIN: OrderTag = OrderTag::Less;

    const MAX: OrderTag = OrderTag::Greater;

    proof fn bounded(x: Self) {
    }
}

impl Sealed for u8 {
    open spec fn wit(self) -> Wit {
        Wit::U8(self)
    }

    proof fn wit_same_type(a: Self, b: Self) {
    }

    proof fn rank_injective(a: Self, b: Self) {
    }

    fn witness(self) -> (w: Wit) {
        Wit::U8(self)
    }
}

impl Ordered for u8 {
    const MIN: u8 = u8::MIN;

    const MAX: u8 = u8::MAX;

    proof fn bounded(x: Self) {
    }
}

impl Sealed for u16 {
    open spec fn wit(self) -> Wit {
        Wit::U16(self)
    }

    proof fn wit_same_type(a: Self, b: Self) {
    }

    proof fn rank_injective(a: Self, b: Self) {
    }

    fn witness(self) -> (w: Wit) {
        Wit::U16(self)
    }
}

impl Ordered for u16 {
    const MIN: u16 = u16::MIN;

    const MAX: u16 = u16::MAX;

    proof fn bounded(x: Self) {
    }
}

impl Sealed for u32 {
    open spec fn wit(self) -> Wit {
        Wit::U32(self)
    }

    proof fn wit_same_type(a: Self, b: Self) {
    }

    proof fn rank_injective(a: Self, b: Self) {
    }

    fn witness(self) -> (w: Wit) {
        Wit::U32(self)
    }
}

impl Ordered for u32 {
    const MIN: u32 = u32::MIN;

    const MAX: u32 = u32::MAX;

    proof fn bounded(x: Self) {
    }
}

impl Sealed for u64 {
    open spec fn wit(self) -> Wit {
        Wit::U64(self)
    }

    proof fn wit_same_type(a: Self, b: Self) {
    }

    proof fn rank_injective(a: Self, b: Self) {
    }

    fn witness(self) -> (w: Wit) {
        Wit::U64(self)
    }
}

impl Ordered for u64 {
    const MIN: u64 = u64::MIN;

    const MAX: u64 = u64::MAX;

    proof fn bounded(x: Self) {
    }
}

impl Sealed for u128 {
    open spec fn wit(self) -> Wit {
        Wit::U128(self)
    }

    proof fn wit_same_type(a: Self, b: Self) {
    }

    proof fn rank_injective(a: Self, b: Self) {
    }

    fn witness(self) -> (w: Wit) {
        Wit::U128(self)
    }
}

impl Ordered for u128 {
    const MIN: u128 = u128::MIN;

    const MAX: u128 = u128::MAX;

    proof fn bounded(x: Self) {
    }
}

impl Sealed for usize {
    open spec fn wit(self) -> Wit {
        Wit::Usize(self)
    }

    proof fn wit_same_type(a: Self, b: Self) {
    }

    proof fn rank_injective(a: Self, b: Self) {
    }

    fn witness(self) -> (w: Wit) {
        Wit::Usize(self)
    }
}

impl Ordered for usize {
    const MIN: usize = usize::MIN;

    const MAX: usize = usize::MAX;

    proof fn bounded(x: Self) {
    }
}

impl Sealed for i8 {
    open spec fn wit(self) -> Wit {
        Wit::I8(self)
    }

    proof fn wit_same_type(a: Self, b: Self) {
    }

    proof fn rank_injective(a: Self, b: Self) {
    }

    fn witness(self) -> (w: Wit) {
        Wit::I8(self)
    }
}

impl Ordered for i8 {
    const MIN: i8 = i8::MIN;

    const MAX: i8 = i8::MAX;

    proof fn bounded(x: Self) {
    }
}

impl Sealed for i16 {
    open spec fn wit(self) -> Wit {
        Wit::I16(self)
    }

    proof fn wit_same_type(a: Self, b: Self) {
    }

    proof fn rank_injective(a: Self, b: Self) {
    }

    fn witness(self) -> (w: Wit) {
        Wit::I16(self)
    }
}

impl Ordered for i16 {
    const MIN: i16 = i16::MIN;

    const MAX: i16 = i16::MAX;

    proof fn bounded(x: Self) {
    }
}

impl Sealed for i32 {
    open spec fn wit(self) -> Wit {
        Wit::I32(self)
    }

    proof fn wit_same_type(a: Self, b: Self) {
    }

    proof fn rank_injective(a: Self, b: Self) {
    }

    fn witness(self) -> (w: Wit) {
        Wit::I32(self)
    }
}

impl Ordered for i32 {
    const MIN: i32 = i32::MIN;

    const MAX: i32 = i32::MAX;

    proof fn bounded(x: Self) {
    }
}

impl Sealed for i64 {
    open spec fn wit(self) -> Wit {
        Wit::I64(self)
    }

    proof fn wit_same_type(a: Self, b: Self) {
    }

    proof fn rank_injective(a: Self, b: Self) {
    }

    fn witness(self) -> (w: Wit) {
        Wit::I64(self)
    }
}

impl Ordered for i64 {
    const MIN: i64 = i64::MIN;

    const MAX: i64 = i64::MAX;

    proof fn bounded(x: Self) {
    }
}

impl Sealed for i128 {
    open spec fn wit(self) -> Wit {
        Wit::I128(self)
    }

    proof fn wit_same_type(a: Self, b: Self) {
    }

    proof fn rank_injective(a: Self, b: Self) {
    }

    fn witness(self) -> (w: Wit) {
        Wit::I128(self)
    }
}

impl Ordered for i128 {
    const MIN: i128 = i128::MIN;

    const MAX: i128 = i128::MAX;

    proof fn bounded(x: Self) {
    }
}

impl Sealed for isize {
    open spec fn wit(self) -> Wit {
        Wit::Isize(self)
    }

    proof fn wit_same_type(a: Self, b: Self) {
    }

    proof fn rank_injective(a: Self, b: Self) {
    }

    fn witness(self) -> (w: Wit) {
        Wit::Isize(self)
    }
}

impl Ordered for isize {
    const MIN: isize = isize::MIN;

    const MAX: isize = isize::MAX;

    proof fn bounded(x: Self) {
    }
}

} // verus!
