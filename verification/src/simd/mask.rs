use super::lane::Lane;
use crate::muck::zeroable::Zeroable;
use core::cmp::Ordering;
use vstd::prelude::*;

verus! {

/// A two-valued type: one value stands for `true`, the other for `false`, and the logical
/// operations act on them.
pub trait MaskValue: Copy + Sized {
    /// Whether this value stands for `true`.
    spec fn truth(self) -> bool;

    /// How many bits a value of this type occupies.
    spec fn mask_width() -> nat;

    /// The type has exactly two values, which `truth` tells apart.
    proof fn two_valued(a: Self, b: Self)
        requires
            a.truth() == b.truth(),
        ensures
            a == b,
    ;

    /// Create a mask from a boolean.
    fn of_bool(is_set: bool) -> (r: Self)
        ensures
            r.truth() == is_set,
    ;

    /// Return this mask as a boolean.
    fn as_bool(self) -> (r: bool)
        ensures
            r == self.truth(),
    ;

    /// The logical `NOT` of this mask.
    fn negate(self) -> (r: Self)
        ensures
            r.truth() == !self.truth(),
    ;

    /// The logical `AND` of two masks.
    fn conj(self, other: Self) -> (r: Self)
        ensures
            r.truth() == (self.truth() && other.truth()),
    ;

    /// The logical `OR` of two masks.
    fn disj(self, other: Self) -> (r: Self)
        ensures
            r.truth() == (self.truth() || other.truth()),
    ;

    /// The logical `XOR` of two masks.
    fn exor(self, other: Self) -> (r: Self)
        ensures
            r.truth() == (self.truth() != other.truth()),
    ;
}

/// Marker trait for mask types: the lanes that are their own mask, and whose bits are all
/// ones for `true` and all zeros for `false`.
pub trait Mask: Lane<Mask = Self> + MaskValue {
    /// All bits are set.
    const TRUE: Self;

    /// No bits are set.
    const FALSE: Self;

    /// All bits are set.
    const SET: Self = Self::TRUE;

    /// No bits are set.
    const UNSET: Self = Self::FALSE;

    /// All bits are set.
    const ALL: Self = Self::TRUE;

    /// No bits are set.
    const NONE: Self = Self::FALSE;

    /// The bits of a mask lane tell its truth.
    proof fn mask_laws(x: Self)
        ensures
            Self::TRUE.truth(),
            !Self::FALSE.truth(),
            x.raw() == truth_raw(x.truth()),
            Self::is_raw(0),
            Self::is_raw(-1),
    ;
}

/// The representation of a truth value as a mask: all ones, or all zeros.
pub open spec fn truth_raw(truth: bool) -> int {
    if truth {
        -1
    } else {
        0
    }
}

/// Whether an integer is the representation of a mask: no bit set, or every bit set.
pub open spec fn is_mask_repr(repr: int) -> bool {
    repr == 0 || repr == -1
}

/// The position of a truth value in the order `false < true`.
pub open spec fn truth_rank(b: bool) -> int {
    if b {
        1
    } else {
        0
    }
}

/// How two truth values compare in the order `false < true`.
pub open spec fn truth_order(lhs: bool, rhs: bool) -> Ordering {
    if lhs == rhs {
        Ordering::Equal
    } else if rhs {
        Ordering::Less
    } else {
        Ordering::Greater
    }
}

/// A 8-bit mask type that is either all ones, or all zeros.
///
/// It is essentially a [`bool`] with a special representation
/// that makes it useful for masking things.
#[derive(Debug, Clone, Copy, PartialEq, Eq, Structural, PartialOrd, Ord, Hash, Default)]
pub enum m8 {
    /// No bits are set.
    #[default]
    False,
    /// All bits are set.
    True,
}

impl m8 {
    /// How many bits are needed to store this mask.
    pub const BITS: u32 = 8;

    /// The integer that represents this mask: 0 for `False`, -1 for `True`.
    pub open spec fn repr(self) -> i8 {
        match self {
            m8::False => 0i8,
            m8::True => -1i8,
        }
    }

    /// Whether this mask has all bits set.
    pub open spec fn spec_is_set(self) -> bool {
        self == m8::True
    }

    /// Create a mask from a boolean.
    pub fn from_bool(is_set: bool) -> (r: m8)
        ensures
            r.spec_is_set() == is_set,
    {
        match is_set {
            true => m8::True,
            false => m8::False,
        }
    }

    /// Return whether this mask has all bits set.
    #[verifier::when_used_as_spec(spec_is_set)]
    pub fn is_set(self) -> (r: bool)
        ensures
            r == self.spec_is_set(),
    {
        matches!(self, m8::True)
    }

    /// Return whether this mask has no bits set.
    pub fn is_unset(self) -> (r: bool)
        ensures
            r == !self.spec_is_set(),
    {
        !self.is_set()
    }

    /// Return this mask as a boolean: `true` if all bits are set, `false` if none is.
    pub fn to_bool(self) -> (r: bool)
        ensures
            r == self.spec_is_set(),
    {
        self.is_set()
    }

    /// The integer representation of this mask.
    pub fn to_repr(self) -> (r: i8)
        ensures
            r == self.repr(),
    {
        match self {
            m8::False => 0,
            m8::True => -1,
        }
    }

    /// Create a mask from its integer representation, or `None` if `repr` is neither all
    /// zeros nor all ones.
    pub fn try_from_repr(repr: i8) -> (r: Option<m8>)
        ensures
            r.is_some() == is_mask_repr(repr as int),
            r matches Some(mask) ==> mask.repr() == repr,
    {
        match repr {
            -1 => Some(m8::True),
            0 => Some(m8::False),
            _ => None,
        }
    }

    /// Create a mask from its integer representation, which must be all zeros or all ones.
    pub fn from_repr(repr: i8) -> (r: m8)
        requires
            is_mask_repr(repr as int),
        ensures
            r.repr() == repr,
    {
        match m8::try_from_repr(repr) {
            Some(mask) => mask,
            None => m8::False,
        }
    }

    /// Create a mask from its integer representation, without any checks: the caller
    /// answers for `repr` being all zeros or all ones.
    pub fn from_repr_unchecked(repr: i8) -> (r: m8)
        requires
            is_mask_repr(repr as int),
        ensures
            r.repr() == repr,
    {
        if repr == 0 {
            m8::False
        } else {
            m8::True
        }
    }

    /// Compute the bitwise and logical `NOT`/`!` of this mask.
    pub fn not(self) -> (r: m8)
        ensures
            r.spec_is_set() == !self.spec_is_set(),
            r.repr() == !self.repr(),
    {
        proof {
            Self::lemma_repr_closed(self.repr(), self.repr());
        }
        match self {
            m8::True => m8::False,
            m8::False => m8::True,
        }
    }

    /// Compute the bitwise and logical `AND`/`&` between two masks.
    pub fn and(self, other: m8) -> (r: m8)
        ensures
            r.spec_is_set() == (self.spec_is_set() && other.spec_is_set()),
            r.repr() == self.repr() & other.repr(),
    {
        proof {
            Self::lemma_repr_closed(self.repr(), other.repr());
        }
        m8::from_repr(self.to_repr() & other.to_repr())
    }

    /// Compute the bitwise and logical `OR`/`|` between two masks.
    pub fn or(self, other: m8) -> (r: m8)
        ensures
            r.spec_is_set() == (self.spec_is_set() || other.spec_is_set()),
            r.repr() == self.repr() | other.repr(),
    {
        proof {
            Self::lemma_repr_closed(self.repr(), other.repr());
        }
        m8::from_repr(self.to_repr() | other.to_repr())
    }

    /// Compute the bitwise and logical `XOR`/`^` between two masks.
    pub fn xor(self, other: m8) -> (r: m8)
        ensures
            r.spec_is_set() == (self.spec_is_set() != other.spec_is_set()),
            r.repr() == self.repr() ^ other.repr(),
    {
        proof {
            Self::lemma_repr_closed(self.repr(), other.repr());
        }
        m8::from_repr(self.to_repr() ^ other.to_repr())
    }

    /// Compute the ordering between two masks, in which `False` comes before `True`.
    pub fn compare(self, rhs: m8) -> (r: Ordering)
        ensures
            r == truth_order(self.spec_is_set(), rhs.spec_is_set()),
    {
        match (self, rhs) {
            (m8::False, m8::True) => Ordering::Less,
            (m8::True, m8::False) => Ordering::Greater,
            _ => Ordering::Equal,
        }
    }

    /// Get a static reference to the mask stored in `self`.
    pub fn promote(self) -> (r: &'static m8)
        ensures
            *r == self,
    {
        match self {
            m8::True => &m8::True,
            m8::False => &m8::False,
        }
    }

    /// The representations of masks are closed under the bitwise operations: the `NOT`,
    /// `AND`, `OR` and `XOR` of integers that are all zeros or all ones are all zeros or
    /// all ones again, and are all ones exactly where the logical operation holds.
    pub proof fn lemma_repr_closed(a: i8, b: i8)
        by (bit_vector)
        requires
            a == 0 || a == -1,
            b == 0 || b == -1,
        ensures
            !a == 0 || !a == -1,
            a & b == 0 || a & b == -1,
            a | b == 0 || a | b == -1,
            a ^ b == 0 || a ^ b == -1,
            !a == -1 <==> a == 0,
            a & b == -1 <==> a == -1 && b == -1,
            a | b == -1 <==> a == -1 || b == -1,
            a ^ b == -1 <==> a != b,
    {
    }
}

impl MaskValue for m8 {
    open spec fn truth(self) -> bool {
        self.spec_is_set()
    }

    open spec fn mask_width() -> nat {
        8
    }

    proof fn two_valued(a: Self, b: Self) {
    }

    fn of_bool(is_set: bool) -> (r: Self) {
        m8::from_bool(is_set)
    }

    fn as_bool(self) -> (r: bool) {
        self.to_bool()
    }

    fn negate(self) -> (r: Self) {
        self.not()
    }

    fn conj(self, other: Self) -> (r: Self) {
        self.and(other)
    }

    fn disj(self, other: Self) -> (r: Self) {
        self.or(other)
    }

    fn exor(self, other: Self) -> (r: Self) {
        self.xor(other)
    }
}

impl Zeroable for m8 {
    open spec fn zero() -> m8 {
        m8::False
    }

    fn zeroed() -> (r: m8) {
        m8::False
    }
}

impl Lane for m8 {
    type Mask = m8;

    open spec fn width() -> nat {
        8
    }

    open spec fn raw(self) -> int {
        self.repr() as int
    }

    open spec fn is_raw(raw: int) -> bool {
        is_mask_repr(raw)
    }

    proof fn lane_laws(x: Self) {
        assert(m8::mask_width() == Self::width());
    }

    proof fn raws_fit(raw: int) {
    }

    proof fn raw_injective(a: Self, b: Self) {
    }

    fn bits() -> (r: u32) {
        m8::BITS
    }

    fn to_raw(self) -> (r: i64) {
        self.to_repr() as i64
    }

    fn from_raw(raw: i64) -> (r: Self) {
        m8::from_repr(raw as i8)
    }
}

impl Mask for m8 {
    const TRUE: m8 = m8::True;

    const FALSE: m8 = m8::False;

    proof fn mask_laws(x: Self) {
    }
}

impl core::ops::BitAnd for m8 {
    type Output = m8;

    fn bitand(self, rhs: m8) -> (r: m8) {
        self.and(rhs)
    }
}

impl vstd::std_specs::ops::BitAndSpecImpl for m8 {
    open spec fn obeys_bitand_spec() -> bool {
        true
    }

    open spec fn bitand_req(self, rhs: m8) -> bool {
        true
    }

    open spec fn bitand_spec(self, rhs: m8) -> m8 {
        if self.spec_is_set() && rhs.spec_is_set() {
            m8::True
        } else {
            m8::False
        }
    }
}

impl core::ops::BitOr for m8 {
    type Output = m8;

    fn bitor(self, rhs: m8) -> (r: m8) {
        self.or(rhs)
    }
}

impl vstd::std_specs::ops::BitOrSpecImpl for m8 {
    open spec fn obeys_bitor_spec() -> bool {
        true
    }

    open spec fn bitor_req(self, rhs: m8) -> bool {
        true
    }

    open spec fn bitor_spec(self, rhs: m8) -> m8 {
        if self.spec_is_set() || rhs.spec_is_set() {
            m8::True
        } else {
            m8::False
        }
    }
}

impl core::ops::BitXor for m8 {
    type Output = m8;

    fn bitxor(self, rhs: m8) -> (r: m8) {
        self.xor(rhs)
    }
}

impl vstd::std_specs::ops::BitXorSpecImpl for m8 {
    open spec fn obeys_bitxor_spec() -> bool {
        true
    }

    open spec fn bitxor_req(self, rhs: m8) -> bool {
        true
    }

    open spec fn bitxor_spec(self, rhs: m8) -> m8 {
        if self.spec_is_set() != rhs.spec_is_set() {
            m8::True
        } else {
            m8::False
        }
    }
}

impl core::ops::Not for m8 {
    type Output = m8;

    fn not(self) -> (r: m8) {
        m8::not(self)
    }
}

impl vstd::std_specs::ops::NotSpecImpl for m8 {
    open spec fn obeys_not_spec() -> bool {
        true
    }

    open spec fn not_req(self) -> bool {
        true
    }

    open spec fn not_spec(self) -> m8 {
        if self.spec_is_set() {
            m8::False
        } else {
            m8::True
        }
    }
}

/// A 16-bit mask type that is either all ones, or all zeros.
///
/// It is essentially a [`bool`] with a special representation
/// that makes it useful for masking things.
#[derive(Debug, Clone, Copy, PartialEq, Eq, Structural, PartialOrd, Ord, Hash, Default)]
pub enum m16 {
    /// No bits are set.
    #[default]
    False,
    /// All bits are set.
    True,
}

impl m16 {
    /// How many bits are needed to store this mask.
    pub const BITS: u32 = 16;

    /// The integer that represents this mask: 0 for `False`, -1 for `True`.
    pub open spec fn repr(self) -> i16 {
        match self {
            m16::False => 0i16,
            m16::True => -1i16,
        }
    }

    /// Whether this mask has all bits set.
    pub open spec fn spec_is_set(self) -> bool {
        self == m16::True
    }

    /// Create a mask from a boolean.
    pub fn from_bool(is_set: bool) -> (r: m16)
        ensures
            r.spec_is_set() == is_set,
    {
        match is_set {
            true => m16::True,
            false => m16::False,
        }
    }

    /// Return whether this mask has all bits set.
    #[verifier::when_used_as_spec(spec_is_set)]
    pub fn is_set(self) -> (r: bool)
        ensures
            r == self.spec_is_set(),
    {
        matches!(self, m16::True)
    }

    /// Return whether this mask has no bits set.
    pub fn is_unset(self) -> (r: bool)
        ensures
            r == !self.spec_is_set(),
    {
        !self.is_set()
    }

    /// Return this mask as a boolean: `true` if all bits are set, `false` if none is.
    pub fn to_bool(self) -> (r: bool)
        ensures
            r == self.spec_is_set(),
    {
        self.is_set()
    }

    /// The integer representation of this mask.
    pub fn to_repr(self) -> (r: i16)
        ensures
            r == self.repr(),
    {
        match self {
            m16::False => 0,
            m16::True => -1,
        }
    }

    /// Create a mask from its integer representation, or `None` if `repr` is neither all
    /// zeros nor all ones.
    pub fn try_from_repr(repr: i16) -> (r: Option<m16>)
        ensures
            r.is_some() == is_mask_repr(repr as int),
            r matches Some(mask) ==> mask.repr() == repr,
    {
        match repr {
            -1 => Some(m16::True),
            0 => Some(m16::False),
            _ => None,
        }
    }

    /// Create a mask from its integer representation, which must be all zeros or all ones.
    pub fn from_repr(repr: i16) -> (r: m16)
        requires
            is_mask_repr(repr as int),
        ensures
            r.repr() == repr,
    {
        match m16::try_from_repr(repr) {
            Some(mask) => mask,
            None => m16::False,
        }
    }

    /// Create a mask from its integer representation, without any checks: the caller
    /// answers for `repr` being all zeros or all ones.
    pub fn from_repr_unchecked(repr: i16) -> (r: m16)
        requires
            is_mask_repr(repr as int),
        ensures
            r.repr() == repr,
    {
        if repr == 0 {
            m16::False
        } else {
            m16::True
        }
    }

    /// Compute the bitwise and logical `NOT`/`!` of this mask.
    pub fn not(self) -> (r: m16)
        ensures
            r.spec_is_set() == !self.spec_is_set(),
            r.repr() == !self.repr(),
    {
        proof {
            Self::lemma_repr_closed(self.repr(), self.repr());
        }
        match self {
            m16::True => m16::False,
            m16::False => m16::True,
        }
    }

    /// Compute the bitwise and logical `AND`/`&` between two masks.
    pub fn and(self, other: m16) -> (r: m16)
        ensures
            r.spec_is_set() == (self.spec_is_set() && other.spec_is_set()),
            r.repr() == self.repr() & other.repr(),
    {
        proof {
            Self::lemma_repr_closed(self.repr(), other.repr());
        }
        m16::from_repr(self.to_repr() & other.to_repr())
    }

    /// Compute the bitwise and logical `OR`/`|` between two masks.
    pub fn or(self, other: m16) -> (r: m16)
        ensures
            r.spec_is_set() == (self.spec_is_set() || other.spec_is_set()),
            r.repr() == self.repr() | other.repr(),
    {
        proof {
            Self::lemma_repr_closed(self.repr(), other.repr());
        }
        m16::from_repr(self.to_repr() | other.to_repr())
    }

    /// Compute the bitwise and logical `XOR`/`^` between two masks.
    pub fn xor(self, other: m16) -> (r: m16)
        ensures
            r.spec_is_set() == (self.spec_is_set() != other.spec_is_set()),
            r.repr() == self.repr() ^ other.repr(),
    {
        proof {
            Self::lemma_repr_closed(self.repr(), other.repr());
        }
        m16::from_repr(self.to_repr() ^ other.to_repr())
    }

    /// Compute the ordering between two masks, in which `False` comes before `True`.
    pub fn compare(self, rhs: m16) -> (r: Ordering)
        ensures
            r == truth_order(self.spec_is_set(), rhs.spec_is_set()),
    {
        match (self, rhs) {
            (m16::False, m16::True) => Ordering::Less,
            (m16::True, m16::False) => Ordering::Greater,
            _ => Ordering::Equal,
        }
    }

    /// Get a static reference to the mask stored in `self`.
    pub fn promote(self) -> (r: &'static m16)
        ensures
            *r == self,
    {
        match self {
            m16::True => &m16::True,
            m16::False => &m16::False,
        }
    }

    /// The representations of masks are closed under the bitwise operations: the `NOT`,
    /// `AND`, `OR` and `XOR` of integers that are all zeros or all ones are all zeros or
    /// all ones again, and are all ones exactly where the logical operation holds.
    pub proof fn lemma_repr_closed(a: i16, b: i16)
        by (bit_vector)
        requires
            a == 0 || a == -1,
            b == 0 || b == -1,
        ensures
            !a == 0 || !a == -1,
            a & b == 0 || a & b == -1,
            a | b == 0 || a | b == -1,
            a ^ b == 0 || a ^ b == -1,
            !a == -1 <==> a == 0,
            a & b == -1 <==> a == -1 && b == -1,
            a | b == -1 <==> a == -1 || b == -1,
            a ^ b == -1 <==> a != b,
    {
    }
}

impl MaskValue for m16 {
    open spec fn truth(self) -> bool {
        self.spec_is_set()
    }

    open spec fn mask_width() -> nat {
        16
    }

    proof fn two_valued(a: Self, b: Self) {
    }

    fn of_bool(is_set: bool) -> (r: Self) {
        m16::from_bool(is_set)
    }

    fn as_bool(self) -> (r: bool) {
        self.to_bool()
    }

    fn negate(self) -> (r: Self) {
        self.not()
    }

    fn conj(self, other: Self) -> (r: Self) {
        self.and(other)
    }

    fn disj(self, other: Self) -> (r: Self) {
        self.or(other)
    }

    fn exor(self, other: Self) -> (r: Self) {
        self.xor(other)
    }
}

impl Zeroable for m16 {
    open spec fn zero() -> m16 {
        m16::False
    }

    fn zeroed() -> (r: m16) {
        m16::False
    }
}

impl Lane for m16 {
    type Mask = m16;

    open spec fn width() -> nat {
        16
    }

    open spec fn raw(self) -> int {
        self.repr() as int
    }

    open spec fn is_raw(raw: int) -> bool {
        is_mask_repr(raw)
    }

    proof fn lane_laws(x: Self) {
        assert(m16::mask_width() == Self::width());
    }

    proof fn raws_fit(raw: int) {
    }

    proof fn raw_injective(a: Self, b: Self) {
    }

    fn bits() -> (r: u32) {
        m16::BITS
    }

    fn to_raw(self) -> (r: i64) {
        self.to_repr() as i64
    }

    fn from_raw(raw: i64) -> (r: Self) {
        m16::from_repr(raw as i16)
    }
}

impl Mask for m16 {
    const TRUE: m16 = m16::True;

    const FALSE: m16 = m16::False;

    proof fn mask_laws(x: Self) {
    }
}

impl core::ops::BitAnd for m16 {
    type Output = m16;

    fn bitand(self, rhs: m16) -> (r: m16) {
        self.and(rhs)
    }
}

impl vstd::std_specs::ops::BitAndSpecImpl for m16 {
    open spec fn obeys_bitand_spec() -> bool {
        true
    }

    open spec fn bitand_req(self, rhs: m16) -> bool {
        true
    }

    open spec fn bitand_spec(self, rhs: m16) -> m16 {
        if self.spec_is_set() && rhs.spec_is_set() {
            m16::True
        } else {
            m16::False
        }
    }
}

impl core::ops::BitOr for m16 {
    type Output = m16;

    fn bitor(self, rhs: m16) -> (r: m16) {
        self.or(rhs)
    }
}

impl vstd::std_specs::ops::BitOrSpecImpl for m16 {
    open spec fn obeys_bitor_spec() -> bool {
        true
    }

    open spec fn bitor_req(self, rhs: m16) -> bool {
        true
    }

    open spec fn bitor_spec(self, rhs: m16) -> m16 {
        if self.spec_is_set() || rhs.spec_is_set() {
            m16::True
        } else {
            m16::False
        }
    }
}

impl core::ops::BitXor for m16 {
    type Output = m16;

    fn bitxor(self, rhs: m16) -> (r: m16) {
        self.xor(rhs)
    }
}

impl vstd::std_specs::ops::BitXorSpecImpl for m16 {
    open spec fn obeys_bitxor_spec() -> bool {
        true
    }

    open spec fn bitxor_req(self, rhs: m16) -> bool {
        true
    }

    open spec fn bitxor_spec(self, rhs: m16) -> m16 {
        if self.spec_is_set() != rhs.spec_is_set() {
            m16::True
        } else {
            m16::False
        }
    }
}

impl core::ops::Not for m16 {
    type Output = m16;

    fn not(self) -> (r: m16) {
        m16::not(self)
    }
}

impl vstd::std_specs::ops::NotSpecImpl for m16 {
    open spec fn obeys_not_spec() -> bool {
        true
    }

    open spec fn not_req(self) -> bool {
        true
    }

    open spec fn not_spec(self) -> m16 {
        if self.spec_is_set() {
            m16::False
        } else {
            m16::True
        }
    }
}

/// A 32-bit mask type that is either all ones, or all zeros.
///
/// It is essentially a [`bool`] with a special representation
/// that makes it useful for masking things.
#[derive(Debug, Clone, Copy, PartialEq, Eq, Structural, PartialOrd, Ord, Hash, Default)]
pub enum m32 {
    /// No bits are set.
    #[default]
    False,
    /// All bits are set.
    True,
}

impl m32 {
    /// How many bits are needed to store this mask.
    pub const BITS: u32 = 32;

    /// The integer that represents this mask: 0 for `False`, -1 for `True`.
    pub open spec fn repr(self) -> i32 {
        match self {
            m32::False => 0i32,
            m32::True => -1i32,
        }
    }

    /// Whether this mask has all bits set.
    pub open spec fn spec_is_set(self) -> bool {
        self == m32::True
    }

    /// Create a mask from a boolean.
    pub fn from_bool(is_set: bool) -> (r: m32)
        ensures
            r.spec_is_set() == is_set,
    {
        match is_set {
            true => m32::True,
            false => m32::False,
        }
    }

    /// Return whether this mask has all bits set.
    #[verifier::when_used_as_spec(spec_is_set)]
    pub fn is_set(self) -> (r: bool)
        ensures
            r == self.spec_is_set(),
    {
        matches!(self, m32::True)
    }

    /// Return whether this mask has no bits set.
    pub fn is_unset(self) -> (r: bool)
        ensures
            r == !self.spec_is_set(),
    {
        !self.is_set()
    }

    /// Return this mask as a boolean: `true` if all bits are set, `false` if none is.
    pub fn to_bool(self) -> (r: bool)
        ensures
            r == self.spec_is_set(),
    {
        self.is_set()
    }

    /// The integer representation of this mask.
    pub fn to_repr(self) -> (r: i32)
        ensures
            r == self.repr(),
    {
        match self {
            m32::False => 0,
            m32::True => -1,
        }
    }

    /// Create a mask from its integer representation, or `None` if `repr` is neither all
    /// zeros nor all ones.
    pub fn try_from_repr(repr: i32) -> (r: Option<m32>)
        ensures
            r.is_some() == is_mask_repr(repr as int),
            r matches Some(mask) ==> mask.repr() == repr,
    {
        match repr {
            -1 => Some(m32::True),
            0 => Some(m32::False),
            _ => None,
        }
    }

    /// Create a mask from its integer representation, which must be all zeros or all ones.
    pub fn from_repr(repr: i32) -> (r: m32)
        requires
            is_mask_repr(repr as int),
        ensures
            r.repr() == repr,
    {
        match m32::try_from_repr(repr) {
            Some(mask) => mask,
            None => m32::False,
        }
    }

    /// Create a mask from its integer representation, without any checks: the caller
    /// answers for `repr` being all zeros or all ones.
    pub fn from_repr_unchecked(repr: i32) -> (r: m32)
        requires
            is_mask_repr(repr as int),
        ensures
            r.repr() == repr,
    {
        if repr == 0 {
            m32::False
        } else {
            m32::True
        }
    }

    /// Compute the bitwise and logical `NOT`/`!` of this mask.
    pub fn not(self) -> (r: m32)
        ensures
            r.spec_is_set() == !self.spec_is_set(),
            r.repr() == !self.repr(),
    {
        proof {
            Self::lemma_repr_closed(self.repr(), self.repr());
        }
        match self {
            m32::True => m32::False,
            m32::False => m32::True,
        }
    }

    /// Compute the bitwise and logical `AND`/`&` between two masks.
    pub fn and(self, other: m32) -> (r: m32)
        ensures
            r.spec_is_set() == (self.spec_is_set() && other.spec_is_set()),
            r.repr() == self.repr() & other.repr(),
    {
        proof {
            Self::lemma_repr_closed(self.repr(), other.repr());
        }
        m32::from_repr(self.to_repr() & other.to_repr())
    }

    /// Compute the bitwise and logical `OR`/`|` between two masks.
    pub fn or(self, other: m32) -> (r: m32)
        ensures
            r.spec_is_set() == (self.spec_is_set() || other.spec_is_set()),
            r.repr() == self.repr() | other.repr(),
    {
        proof {
            Self::lemma_repr_closed(self.repr(), other.repr());
        }
        m32::from_repr(self.to_repr() | other.to_repr())
    }

    /// Compute the bitwise and logical `XOR`/`^` between two masks.
    pub fn xor(self, other: m32) -> (r: m32)
        ensures
            r.spec_is_set() == (self.spec_is_set() != other.spec_is_set()),
            r.repr() == self.repr() ^ other.repr(),
    {
        proof {
            Self::lemma_repr_closed(self.repr(), other.repr());
        }
        m32::from_repr(self.to_repr() ^ other.to_repr())
    }

    /// Compute the ordering between two masks, in which `False` comes before `True`.
    pub fn compare(self, rhs: m32) -> (r: Ordering)
        ensures
            r == truth_order(self.spec_is_set(), rhs.spec_is_set()),
    {
        match (self, rhs) {
            (m32::False, m32::True) => Ordering::Less,
            (m32::True, m32::False) => Ordering::Greater,
            _ => Ordering::Equal,
        }
    }

    /// Get a static reference to the mask stored in `self`.
    pub fn promote(self) -> (r: &'static m32)
        ensures
            *r == self,
    {
        match self {
            m32::True => &m32::True,
            m32::False => &m32::False,
        }
    }

    /// The representations of masks are closed under the bitwise operations: the `NOT`,
    /// `AND`, `OR` and `XOR` of integers that are all zeros or all ones are all zeros or
    /// all ones again, and are all ones exactly where the logical operation holds.
    pub proof fn lemma_repr_closed(a: i32, b: i32)
        by (bit_vector)
        requires
            a == 0 || a == -1,
            b == 0 || b == -1,
        ensures
            !a == 0 || !a == -1,
            a & b == 0 || a & b == -1,
            a | b == 0 || a | b == -1,
            a ^ b == 0 || a ^ b == -1,
            !a == -1 <==> a == 0,
            a & b == -1 <==> a == -1 && b == -1,
            a | b == -1 <==> a == -1 || b == -1,
            a ^ b == -1 <==> a != b,
    {
    }
}

impl MaskValue for m32 {
    open spec fn truth(self) -> bool {
        self.spec_is_set()
    }

    open spec fn mask_width() -> nat {
        32
    }

    proof fn two_valued(a: Self, b: Self) {
    }

    fn of_bool(is_set: bool) -> (r: Self) {
        m32::from_bool(is_set)
    }

    fn as_bool(self) -> (r: bool) {
        self.to_bool()
    }

    fn negate(self) -> (r: Self) {
        self.not()
    }

    fn conj(self, other: Self) -> (r: Self) {
        self.and(other)
    }

    fn disj(self, other: Self) -> (r: Self) {
        self.or(other)
    }

    fn exor(self, other: Self) -> (r: Self) {
        self.xor(other)
    }
}

impl Zeroable for m32 {
    open spec fn zero() -> m32 {
        m32::False
    }

    fn zeroed() -> (r: m32) {
        m32::False
    }
}

impl Lane for m32 {
    type Mask = m32;

    open spec fn width() -> nat {
        32
    }

    open spec fn raw(self) -> int {
        self.repr() as int
    }

    open spec fn is_raw(raw: int) -> bool {
        is_mask_repr(raw)
    }

    proof fn lane_laws(x: Self) {
        assert(m32::mask_width() == Self::width());
    }

    proof fn raws_fit(raw: int) {
    }

    proof fn raw_injective(a: Self, b: Self) {
    }

    fn bits() -> (r: u32) {
        m32::BITS
    }

    fn to_raw(self) -> (r: i64) {
        self.to_repr() as i64
    }

    fn from_raw(raw: i64) -> (r: Self) {
        m32::from_repr(raw as i32)
    }
}

impl Mask for m32 {
    const TRUE: m32 = m32::True;

    const FALSE: m32 = m32::False;

    proof fn mask_laws(x: Self) {
    }
}

impl core::ops::BitAnd for m32 {
    type Output = m32;

    fn bitand(self, rhs: m32) -> (r: m32) {
        self.and(rhs)
    }
}

impl vstd::std_specs::ops::BitAndSpecImpl for m32 {
    open spec fn obeys_bitand_spec() -> bool {
        true
    }

    open spec fn bitand_req(self, rhs: m32) -> bool {
        true
    }

    open spec fn bitand_spec(self, rhs: m32) -> m32 {
        if self.spec_is_set() && rhs.spec_is_set() {
            m32::True
        } else {
            m32::False
        }
    }
}

impl core::ops::BitOr for m32 {
    type Output = m32;

    fn bitor(self, rhs: m32) -> (r: m32) {
        self.or(rhs)
    }
}

impl vstd::std_specs::ops::BitOrSpecImpl for m32 {
    open spec fn obeys_bitor_spec() -> bool {
        true
    }

    open spec fn bitor_req(self, rhs: m32) -> bool {
        true
    }

    open spec fn bitor_spec(self, rhs: m32) -> m32 {
        if self.spec_is_set() || rhs.spec_is_set() {
            m32::True
        } else {
            m32::False
        }
    }
}

impl core::ops::BitXor for m32 {
    type Output = m32;

    fn bitxor(self, rhs: m32) -> (r: m32) {
        self.xor(rhs)
    }
}

impl vstd::std_specs::ops::BitXorSpecImpl for m32 {
    open spec fn obeys_bitxor_spec() -> bool {
        true
    }

    open spec fn bitxor_req(self, rhs: m32) -> bool {
        true
    }

    open spec fn bitxor_spec(self, rhs: m32) -> m32 {
        if self.spec_is_set() != rhs.spec_is_set() {
            m32::True
        } else {
            m32::False
        }
    }
}

impl core::ops::Not for m32 {
    type Output = m32;

    fn not(self) -> (r: m32) {
        m32::not(self)
    }
}

impl vstd::std_specs::ops::NotSpecImpl for m32 {
    open spec fn obeys_not_spec() -> bool {
        true
    }

    open spec fn not_req(self) -> bool {
        true
    }

    open spec fn not_spec(self) -> m32 {
        if self.spec_is_set() {
            m32::False
        } else {
            m32::True
        }
    }
}

/// A 64-bit mask type that is either all ones, or all zeros.
///
/// It is essentially a [`bool`] with a special representation
/// that makes it useful for masking things.
#[derive(Debug, Clone, Copy, PartialEq, Eq, Structural, PartialOrd, Ord, Hash, Default)]
pub enum m64 {
    /// No bits are set.
    #[default]
    False,
    /// All bits are set.
    True,
}

impl m64 {
    /// How many bits are needed to store this mask.
    pub const BITS: u32 = 64;

    /// The integer that represents this mask: 0 for `False`, -1 for `True`.
    pub open spec fn repr(self) -> i64 {
        match self {
            m64::False => 0i64,
            m64::True => -1i64,
        }
    }

    /// Whether this mask has all bits set.
    pub open spec fn spec_is_set(self) -> bool {
        self == m64::True
    }

    /// Create a mask from a boolean.
    pub fn from_bool(is_set: bool) -> (r: m64)
        ensures
            r.spec_is_set() == is_set,
    {
        match is_set {
            true => m64::True,
            false => m64::False,
        }
    }

    /// Return whether this mask has all bits set.
    #[verifier::when_used_as_spec(spec_is_set)]
    pub fn is_set(self) -> (r: bool)
        ensures
            r == self.spec_is_set(),
    {
        matches!(self, m64::True)
    }

    /// Return whether this mask has no bits set.
    pub fn is_unset(self) -> (r: bool)
        ensures
            r == !self.spec_is_set(),
    {
        !self.is_set()
    }

    /// Return this mask as a boolean: `true` if all bits are set, `false` if none is.
    pub fn to_bool(self) -> (r: bool)
        ensures
            r == self.spec_is_set(),
    {
        self.is_set()
    }

    /// The integer representation of this mask.
    pub fn to_repr(self) -> (r: i64)
        ensures
            r == self.repr(),
    {
        match self {
            m64::False => 0,
            m64::True => -1,
        }
    }

    /// Create a mask from its integer representation, or `None` if `repr` is neither all
    /// zeros nor all ones.
    pub fn try_from_repr(repr: i64) -> (r: Option<m64>)
        ensures
            r.is_some() == is_mask_repr(repr as int),
            r matches Some(mask) ==> mask.repr() == repr,
    {
        match repr {
            -1 => Some(m64::True),
            0 => Some(m64::False),
            _ => None,
        }
    }

    /// Create a mask from its integer representation, which must be all zeros or all ones.
    pub fn from_repr(repr: i64) -> (r: m64)
        requires
            is_mask_repr(repr as int),
        ensures
            r.repr() == repr,
    {
        match m64::try_from_repr(repr) {
            Some(mask) => mask,
            None => m64::False,
        }
    }

    /// Create a mask from its integer representation, without any checks: the caller
    /// answers for `repr` being all zeros or all ones.
    pub fn from_repr_unchecked(repr: i64) -> (r: m64)
        requires
            is_mask_repr(repr as int),
        ensures
            r.repr() == repr,
    {
        if repr == 0 {
            m64::False
        } else {
            m64::True
        }
    }

    /// Compute the bitwise and logical `NOT`/`!` of this mask.
    pub fn not(self) -> (r: m64)
        ensures
            r.spec_is_set() == !self.spec_is_set(),
            r.repr() == !self.repr(),
    {
        proof {
            Self::lemma_repr_closed(self.repr(), self.repr());
        }
        match self {
            m64::True => m64::False,
            m64::False => m64::True,
        }
    }

    /// Compute the bitwise and logical `AND`/`&` between two masks.
    pub fn and(self, other: m64) -> (r: m64)
        ensures
            r.spec_is_set() == (self.spec_is_set() && other.spec_is_set()),
            r.repr() == self.repr() & other.repr(),
    {
        proof {
            Self::lemma_repr_closed(self.repr(), other.repr());
        }
        m64::from_repr(self.to_repr() & other.to_repr())
    }

    /// Compute the bitwise and logical `OR`/`|` between two masks.
    pub fn or(self, other: m64) -> (r: m64)
        ensures
            r.spec_is_set() == (self.spec_is_set() || other.spec_is_set()),
            r.repr() == self.repr() | other.repr(),
    {
        proof {
            Self::lemma_repr_closed(self.repr(), other.repr());
        }
        m64::from_repr(self.to_repr() | other.to_repr())
    }

    /// Compute the bitwise and logical `XOR`/`^` between two masks.
    pub fn xor(self, other: m64) -> (r: m64)
        ensures
            r.spec_is_set() == (self.spec_is_set() != other.spec_is_set()),
            r.repr() == self.repr() ^ other.repr(),
    {
        proof {
            Self::lemma_repr_closed(self.repr(), other.repr());
        }
        m64::from_repr(self.to_repr() ^ other.to_repr())
    }

    /// Compute the ordering between two masks, in which `False` comes before `True`.
    pub fn compare(self, rhs: m64) -> (r: Ordering)
        ensures
            r == truth_order(self.spec_is_set(), rhs.spec_is_set()),
    {
        match (self, rhs) {
            (m64::False, m64::True) => Ordering::Less,
            (m64::True, m64::False) => Ordering::Greater,
            _ => Ordering::Equal,
        }
    }

    /// Get a static reference to the mask stored in `self`.
    pub fn promote(self) -> (r: &'static m64)
        ensures
            *r == self,
    {
        match self {
            m64::True => &m64::True,
            m64::False => &m64::False,
        }
    }

    /// The representations of masks are closed under the bitwise operations: the `NOT`,
    /// `AND`, `OR` and `XOR` of integers that are all zeros or all ones are all zeros or
    /// all ones again, and are all ones exactly where the logical operation holds.
    pub proof fn lemma_repr_closed(a: i64, b: i64)
        by (bit_vector)
        requires
            a == 0 || a == -1,
            b == 0 || b == -1,
        ensures
            !a == 0 || !a == -1,
            a & b == 0 || a & b == -1,
            a | b == 0 || a | b == -1,
            a ^ b == 0 || a ^ b == -1,
            !a == -1 <==> a == 0,
            a & b == -1 <==> a == -1 && b == -1,
            a | b == -1 <==> a == -1 || b == -1,
            a ^ b == -1 <==> a != b,
    {
    }
}

impl MaskValue for m64 {
    open spec fn truth(self) -> bool {
        self.spec_is_set()
    }

    open spec fn mask_width() -> nat {
        64
    }

    proof fn two_valued(a: Self, b: Self) {
    }

    fn of_bool(is_set: bool) -> (r: Self) {
        m64::from_bool(is_set)
    }

    fn as_bool(self) -> (r: bool) {
        self.to_bool()
    }

    fn negate(self) -> (r: Self) {
        self.not()
    }

    fn conj(self, other: Self) -> (r: Self) {
        self.and(other)
    }

    fn disj(self, other: Self) -> (r: Self) {
        self.or(other)
    }

    fn exor(self, other: Self) -> (r: Self) {
        self.xor(other)
    }
}

impl Zeroable for m64 {
    open spec fn zero() -> m64 {
        m64::False
    }

    fn zeroed() -> (r: m64) {
        m64::False
    }
}

impl Lane for m64 {
    type Mask = m64;

    open spec fn width() -> nat {
        64
    }

    open spec fn raw(self) -> int {
        self.repr() as int
    }

    open spec fn is_raw(raw: int) -> bool {
        is_mask_repr(raw)
    }

    proof fn lane_laws(x: Self) {
        assert(m64::mask_width() == Self::width());
    }

    proof fn raws_fit(raw: int) {
    }

    proof fn raw_injective(a: Self, b: Self) {
    }

    fn bits() -> (r: u32) {
        m64::BITS
    }

    fn to_raw(self) -> (r: i64) {
        self.to_repr() as i64
    }

    fn from_raw(raw: i64) -> (r: Self) {
        m64::from_repr(raw as i64)
    }
}

impl Mask for m64 {
    const TRUE: m64 = m64::True;

    const FALSE: m64 = m64::False;

    proof fn mask_laws(x: Self) {
    }
}

impl core::ops::BitAnd for m64 {
    type Output = m64;

    fn bitand(self, rhs: m64) -> (r: m64) {
        self.and(rhs)
    }
}

impl vstd::std_specs::ops::BitAndSpecImpl for m64 {
    open spec fn obeys_bitand_spec() -> bool {
        true
    }

    open spec fn bitand_req(self, rhs: m64) -> bool {
        true
    }

    open spec fn bitand_spec(self, rhs: m64) -> m64 {
        if self.spec_is_set() && rhs.spec_is_set() {
            m64::True
        } else {
            m64::False
        }
    }
}

impl core::ops::BitOr for m64 {
    type Output = m64;

    fn bitor(self, rhs: m64) -> (r: m64) {
        self.or(rhs)
    }
}

impl vstd::std_specs::ops::BitOrSpecImpl for m64 {
    open spec fn obeys_bitor_spec() -> bool {
        true
    }

    open spec fn bitor_req(self, rhs: m64) -> bool {
        true
    }

    open spec fn bitor_spec(self, rhs: m64) -> m64 {
        if self.spec_is_set() || rhs.spec_is_set() {
            m64::True
        } else {
            m64::False
        }
    }
}

impl core::ops::BitXor for m64 {
    type Output = m64;

    fn bitxor(self, rhs: m64) -> (r: m64) {
        self.xor(rhs)
    }
}

impl vstd::std_specs::ops::BitXorSpecImpl for m64 {
    open spec fn obeys_bitxor_spec() -> bool {
        true
    }

    open spec fn bitxor_req(self, rhs: m64) -> bool {
        true
    }

    open spec fn bitxor_spec(self, rhs: m64) -> m64 {
        if self.spec_is_set() != rhs.spec_is_set() {
            m64::True
        } else {
            m64::False
        }
    }
}

impl core::ops::Not for m64 {
    type Output = m64;

    fn not(self) -> (r: m64) {
        m64::not(self)
    }
}

impl vstd::std_specs::ops::NotSpecImpl for m64 {
    open spec fn obeys_not_spec() -> bool {
        true
    }

    open spec fn not_req(self) -> bool {
        true
    }

    open spec fn not_spec(self) -> m64 {
        if self.spec_is_set() {
            m64::False
        } else {
            m64::True
        }
    }
}

/// A pointer-sized mask type that is either all ones, or all zeros.
///
/// It is essentially a [`bool`] with a special representation
/// that makes it useful for masking things.
#[derive(Debug, Clone, Copy, PartialEq, Eq, Structural, PartialOrd, Ord, Hash, Default)]
pub enum msize {
    /// No bits are set.
    #[default]
    False,
    /// All bits are set.
    True,
}

impl msize {
    /// How many bits are needed to store this mask.
    pub const BITS: u32 = usize::BITS;

    /// The integer that represents this mask: 0 for `False`, -1 for `True`.
    pub open spec fn repr(self) -> isize {
        match self {
            msize::False => 0isize,
            msize::True => -1isize,
        }
    }

    /// Whether this mask has all bits set.
    pub open spec fn spec_is_set(self) -> bool {
        self == msize::True
    }

    /// Create a mask from a boolean.
    pub fn from_bool(is_set: bool) -> (r: msize)
        ensures
            r.spec_is_set() == is_set,
    {
        match is_set {
            true => msize::True,
            false => msize::False,
        }
    }

    /// Return whether this mask has all bits set.
    #[verifier::when_used_as_spec(spec_is_set)]
    pub fn is_set(self) -> (r: bool)
        ensures
            r == self.spec_is_set(),
    {
        matches!(self, msize::True)
    }

    /// Return whether this mask has no bits set.
    pub fn is_unset(self) -> (r: bool)
        ensures
            r == !self.spec_is_set(),
    {
        !self.is_set()
    }

    /// Return this mask as a boolean: `true` if all bits are set, `false` if none is.
    pub fn to_bool(self) -> (r: bool)
        ensures
            r == self.spec_is_set(),
    {
        self.is_set()
    }

    /// The integer representation of this mask.
    pub fn to_repr(self) -> (r: isize)
        ensures
            r == self.repr(),
    {
        match self {
            msize::False => 0,
            msize::True => -1,
        }
    }

    /// Create a mask from its integer representation, or `None` if `repr` is neither all
    /// zeros nor all ones.
    pub fn try_from_repr(repr: isize) -> (r: Option<msize>)
        ensures
            r.is_some() == is_mask_repr(repr as int),
            r matches Some(mask) ==> mask.repr() == repr,
    {
        match repr {
            -1 => Some(msize::True),
            0 => Some(msize::False),
            _ => None,
        }
    }

    /// Create a mask from its integer representation, which must be all zeros or all ones.
    pub fn from_repr(repr: isize) -> (r: msize)
        requires
            is_mask_repr(repr as int),
        ensures
            r.repr() == repr,
    {
        match msize::try_from_repr(repr) {
            Some(mask) => mask,
            None => msize::False,
        }
    }

    /// Create a mask from its integer representation, without any checks: the caller
    /// answers for `repr` being all zeros or all ones.
    pub fn from_repr_unchecked(repr: isize) -> (r: msize)
        requires
            is_mask_repr(repr as int),
        ensures
            r.repr() == repr,
    {
        if repr == 0 {
            msize::False
        } else {
            msize::True
        }
    }

    /// Compute the bitwise and logical `NOT`/`!` of this mask.
    pub fn not(self) -> (r: msize)
        ensures
            r.spec_is_set() == !self.spec_is_set(),
            r.repr() == !self.repr(),
    {
        proof {
            Self::lemma_repr_closed(self.repr(), self.repr());
        }
        match self {
            msize::True => msize::False,
            msize::False => msize::True,
        }
    }

    /// Compute the bitwise and logical `AND`/`&` between two masks.
    pub fn and(self, other: msize) -> (r: msize)
        ensures
            r.spec_is_set() == (self.spec_is_set() && other.spec_is_set()),
            r.repr() == self.repr() & other.repr(),
    {
        proof {
            Self::lemma_repr_closed(self.repr(), other.repr());
        }
        msize::from_repr(self.to_repr() & other.to_repr())
    }

    /// Compute the bitwise and logical `OR`/`|` between two masks.
    pub fn or(self, other: msize) -> (r: msize)
        ensures
            r.spec_is_set() == (self.spec_is_set() || other.spec_is_set()),
            r.repr() == self.repr() | other.repr(),
    {
        proof {
            Self::lemma_repr_closed(self.repr(), other.repr());
        }
        msize::from_repr(self.to_repr() | other.to_repr())
    }

    /// Compute the bitwise and logical `XOR`/`^` between two masks.
    pub fn xor(self, other: msize) -> (r: msize)
        ensures
            r.spec_is_set() == (self.spec_is_set() != other.spec_is_set()),
            r.repr() == self.repr() ^ other.repr(),
    {
        proof {
            Self::lemma_repr_closed(self.repr(), other.repr());
        }
        msize::from_repr(self.to_repr() ^ other.to_repr())
    }

    /// Compute the ordering between two masks, in which `False` comes before `True`.
    pub fn compare(self, rhs: msize) -> (r: Ordering)
        ensures
            r == truth_order(self.spec_is_set(), rhs.spec_is_set()),
    {
        match (self, rhs) {
            (msize::False, msize::True) => Ordering::Less,
            (msize::True, msize::False) => Ordering::Greater,
            _ => Ordering::Equal,
        }
    }

    /// Get a static reference to the mask stored in `self`.
    pub fn promote(self) -> (r: &'static msize)
        ensures
            *r == self,
    {
        match self {
            msize::True => &msize::True,
            msize::False => &msize::False,
        }
    }

    /// The representations of masks are closed under the bitwise operations: the `NOT`,
    /// `AND`, `OR` and `XOR` of integers that are all zeros or all ones are all zeros or
    /// all ones again, and are all ones exactly where the logical operation holds.
    pub proof fn lemma_repr_closed(a: isize, b: isize)
        by (bit_vector)
        requires
            a == 0 || a == -1,
            b == 0 || b == -1,
        ensures
            !a == 0 || !a == -1,
            a & b == 0 || a & b == -1,
            a | b == 0 || a | b == -1,
            a ^ b == 0 || a ^ b == -1,
            !a == -1 <==> a == 0,
            a & b == -1 <==> a == -1 && b == -1,
            a | b == -1 <==> a == -1 || b == -1,
            a ^ b == -1 <==> a != b,
    {
    }
}

impl MaskValue for msize {
    open spec fn truth(self) -> bool {
        self.spec_is_set()
    }

    open spec fn mask_width() -> nat {
        usize::BITS as nat
    }

    proof fn two_valued(a: Self, b: Self) {
    }

    fn of_bool(is_set: bool) -> (r: Self) {
        msize::from_bool(is_set)
    }

    fn as_bool(self) -> (r: bool) {
        self.to_bool()
    }

    fn negate(self) -> (r: Self) {
        self.not()
    }

    fn conj(self, other: Self) -> (r: Self) {
        self.and(other)
    }

    fn disj(self, other: Self) -> (r: Self) {
        self.or(other)
    }

    fn exor(self, other: Self) -> (r: Self) {
        self.xor(other)
    }
}

impl Zeroable for msize {
    open spec fn zero() -> msize {
        msize::False
    }

    fn zeroed() -> (r: msize) {
        msize::False
    }
}

impl Lane for msize {
    type Mask = msize;

    open spec fn width() -> nat {
        usize::BITS as nat
    }

    open spec fn raw(self) -> int {
        self.repr() as int
    }

    open spec fn is_raw(raw: int) -> bool {
        is_mask_repr(raw)
    }

    proof fn lane_laws(x: Self) {
        assert(msize::mask_width() == Self::width());
    }

    proof fn raws_fit(raw: int) {
    }

    proof fn raw_injective(a: Self, b: Self) {
    }

    fn bits() -> (r: u32) {
        msize::BITS
    }

    fn to_raw(self) -> (r: i64) {
        self.to_repr() as i64
    }

    fn from_raw(raw: i64) -> (r: Self) {
        msize::from_repr(raw as isize)
    }
}

impl Mask for msize {
    const TRUE: msize = msize::True;

    const FALSE: msize = msize::False;

    proof fn mask_laws(x: Self) {
    }
}

impl core::ops::BitAnd for msize {
    type Output = msize;

    fn bitand(self, rhs: msize) -> (r: msize) {
        self.and(rhs)
    }
}

impl vstd::std_specs::ops::BitAndSpecImpl for msize {
    open spec fn obeys_bitand_spec() -> bool {
        true
    }

    open spec fn bitand_req(self, rhs: msize) -> bool {
        true
    }

    open spec fn bitand_spec(self, rhs: msize) -> msize {
        if self.spec_is_set() && rhs.spec_is_set() {
            msize::True
        } else {
            msize::False
        }
    }
}

impl core::ops::BitOr for msize {
    type Output = msize;

    fn bitor(self, rhs: msize) -> (r: msize) {
        self.or(rhs)
    }
}

impl vstd::std_specs::ops::BitOrSpecImpl for msize {
    open spec fn obeys_bitor_spec() -> bool {
        true
    }

    open spec fn bitor_req(self, rhs: msize) -> bool {
        true
    }

    open spec fn bitor_spec(self, rhs: msize) -> msize {
        if self.spec_is_set() || rhs.spec_is_set() {
            msize::True
        } else {
            msize::False
        }
    }
}

impl core::ops::BitXor for msize {
    type Output = msize;

    fn bitxor(self, rhs: msize) -> (r: msize) {
        self.xor(rhs)
    }
}

impl vstd::std_specs::ops::BitXorSpecImpl for msize {
    open spec fn obeys_bitxor_spec() -> bool {
        true
    }

    open spec fn bitxor_req(self, rhs: msize) -> bool {
        true
    }

    open spec fn bitxor_spec(self, rhs: msize) -> msize {
        if self.spec_is_set() != rhs.spec_is_set() {
            msize::True
        } else {
            msize::False
        }
    }
}

impl core::ops::Not for msize {
    type Output = msize;

    fn not(self) -> (r: msize) {
        msize::not(self)
    }
}

impl vstd::std_specs::ops::NotSpecImpl for msize {
    open spec fn obeys_not_spec() -> bool {
        true
    }

    open spec fn not_req(self) -> bool {
        true
    }

    open spec fn not_spec(self) -> msize {
        if self.spec_is_set() {
            msize::False
        } else {
            msize::True
        }
    }
}

/// Replace the mask behind `a` by its `XOR` with `b`.
pub fn xor(a: &mut &'static m8, b: m8)
    ensures
        (**final(a)).spec_is_set() == ((**old(a)).spec_is_set() != b.spec_is_set()),
{
    *a = (**a).xor(b).promote();
}

} // verus!
