use super::mask::{m16, m32, m64, m8, msize, MaskValue};
use crate::muck::zeroable::Zeroable;
use crate::sealed::Sealed;
use vstd::prelude::*;

verus! {

/// Marker trait for types that are lanes.
///
/// A lane is `width()` bits wide, and `raw` reads its bits as a signed integer of that
/// width. A lane type must meet the following invariants, which `lane_laws`, `raws_fit`
/// and `raw_injective` state:
///
/// - The bit pattern of the zeroed lane, `Zeroable::zero()`, is all zeros.
///
/// - `Lane::Mask` is as wide as this lane.
///
/// - A lane is nothing but its bits: lanes with the same bits are the same lane.
pub trait Lane: Sealed + Zeroable + Copy + Default {
    /// The mask type for this lane.
    type Mask: MaskValue;

    /// The number of bits in a lane: 8, 16, 32 or 64.
    spec fn width() -> nat;

    /// The bits of this lane, read as a signed integer of `width()` bits.
    spec fn raw(self) -> int;

    /// Whether the signed integer `raw` is the bit pattern of a lane of this type.
    spec fn is_raw(raw: int) -> bool;

    proof fn lane_laws(x: Self)
        ensures
            is_lane_width(Self::width()),
            Self::Mask::mask_width() == Self::width(),
            Self::zero().raw() == 0,
            Self::is_raw(x.raw()),
    ;

    /// Only integers of `width()` bits are bit patterns of lanes.
    proof fn raws_fit(raw: int)
        requires
            Self::is_raw(raw),
        ensures
            fits(raw, Self::width()),
    ;

    proof fn raw_injective(a: Self, b: Self)
        requires
            a.raw() == b.raw(),
        ensures
            a == b,
    ;

    /// The number of bits in a lane.
    fn bits() -> (r: u32)
        ensures
            r == Self::width(),
    ;

    /// The bits of this lane as a signed integer, sign-extended to 64 bits.
    fn to_raw(self) -> (r: i64)
        ensures
            r == self.raw(),
    ;

    /// The lane with the given bits.
    fn from_raw(raw: i64) -> (r: Self)
        requires
            Self::is_raw(raw as int),
        ensures
            r.raw() == raw,
    ;
}

/// Marker trait for the scalar lanes, the integers and the floating point numbers: every
/// bit pattern of the lane's width is a lane.
pub trait Scalar: Lane {
    proof fn every_raw(raw: int)
        requires
            fits(raw, Self::width()),
        ensures
            Self::is_raw(raw),
    ;
}

/// The widths that a lane can have.
pub open spec fn is_lane_width(width: nat) -> bool {
    width == 8 || width == 16 || width == 32 || width == 64
}

/// Whether `raw` is a signed integer of `width` bits, for the widths of lanes.
pub open spec fn fits(raw: int, width: nat) -> bool {
    if width == 8 {
        -0x80 <= raw < 0x80
    } else if width == 16 {
        -0x8000 <= raw < 0x8000
    } else if width == 32 {
        -0x8000_0000 <= raw < 0x8000_0000
    } else {
        width == 64 && -0x8000_0000_0000_0000 <= raw < 0x8000_0000_0000_0000
    }
}

/// What an unsigned integer of `width` bits is when its bits are read as a signed one.
pub open spec fn signed(value: int, width: nat) -> int {
    if width == 8 {
        if value < 0x80 { value } else { value - 0x100 }
    } else if width == 16 {
        if value < 0x8000 { value } else { value - 0x1_0000 }
    } else if width == 32 {
        if value < 0x8000_0000 { value } else { value - 0x1_0000_0000 }
    } else {
        if value < 0x8000_0000_0000_0000 { value } else { value - 0x1_0000_0000_0000_0000 }
    }
}

/// A 32-bit floating point number, held as its bits.
#[derive(Debug, Clone, Copy, PartialEq, Eq, Structural, Hash, Default)]
pub struct Float32 {
    pub bits: u32,
}

/// A 64-bit floating point number, held as its bits.
#[derive(Debug, Clone, Copy, PartialEq, Eq, Structural, Hash, Default)]
pub struct Float64 {
    pub bits: u64,
}

impl Float32 {
    /// The bits of this number.
    pub open spec fn spec_to_bits(self) -> u32 {
        self.bits
    }

    /// The number with the given bits.
    pub fn from_bits(bits: u32) -> (r: Float32)
        ensures
            r.spec_to_bits() == bits,
    {
        Float32 { bits }
    }

    /// The bits of this number.
    #[verifier::when_used_as_spec(spec_to_bits)]
    pub fn to_bits(self) -> (r: u32)
        ensures
            r == self.spec_to_bits(),
    {
        self.bits
    }
}

impl Float64 {
    /// The bits of this number.
    pub open spec fn spec_to_bits(self) -> u64 {
        self.bits
    }

    /// The number with the given bits.
    pub fn from_bits(bits: u64) -> (r: Float64)
        ensures
            r.spec_to_bits() == bits,
    {
        Float64 { bits }
    }

    /// The bits of this number.
    #[verifier::when_used_as_spec(spec_to_bits)]
    pub fn to_bits(self) -> (r: u64)
        ensures
            r == self.spec_to_bits(),
    {
        self.bits
    }
}

impl Zeroable for u8 {
    open spec fn zero() -> u8 {
        0
    }

    fn zeroed() -> (r: u8) {
        0
    }
}

impl Lane for u8 {
    type Mask = m8;

    open spec fn width() -> nat {
        8
    }

    open spec fn raw(self) -> int {
        signed(self as int, 8)
    }

    open spec fn is_raw(raw: int) -> bool {
        fits(raw, 8)
    }

    proof fn lane_laws(x: Self) {
        assert(m8::mask_width() == Self::width());
    }

    proof fn raws_fit(raw: int) {
    }

    proof fn raw_injective(a: Self, b: Self) {
    }

    fn bits() -> (r: u32) {
        8
    }

    fn to_raw(self) -> (r: i64) {
        let s = self as i8;
        assert(s == signed(self as int, 8)) by (bit_vector)
            requires
                s == self as i8,
        ;
        s as i64
    }

    fn from_raw(raw: i64) -> (r: Self) {
        let s = raw as i8;
        let r = s as u8;
        assert(signed(r as int, 8) == s) by (bit_vector)
            requires
                r == s as u8,
        ;
        r
    }
}

impl Scalar for u8 {
    proof fn every_raw(raw: int) {
    }
}

impl Zeroable for u16 {
    open spec fn zero() -> u16 {
        0
    }

    fn zeroed() -> (r: u16) {
        0
    }
}

impl Lane for u16 {
    type Mask = m16;

    open spec fn width() -> nat {
        16
    }

    open spec fn raw(self) -> int {
        signed(self as int, 16)
    }

    open spec fn is_raw(raw: int) -> bool {
        fits(raw, 16)
    }

    proof fn lane_laws(x: Self) {
        assert(m16::mask_width() == Self::width());
    }

    proof fn raws_fit(raw: int) {
    }

    proof fn raw_injective(a: Self, b: Self) {
    }

    fn bits() -> (r: u32) {
        16
    }

    fn to_raw(self) -> (r: i64) {
        let s = self as i16;
        assert(s == signed(self as int, 16)) by (bit_vector)
            requires
                s == self as i16,
        ;
        s as i64
    }

    fn from_raw(raw: i64) -> (r: Self) {
        let s = raw as i16;
        let r = s as u16;
        assert(signed(r as int, 16) == s) by (bit_vector)
            requires
                r == s as u16,
        ;
        r
    }
}

impl Scalar for u16 {
    proof fn every_raw(raw: int) {
    }
}

impl Zeroable for u32 {
    open spec fn zero() -> u32 {
        0
    }

    fn zeroed() -> (r: u32) {
        0
    }
}

impl Lane for u32 {
    type Mask = m32;

    open spec fn width() -> nat {
        32
    }

    open spec fn raw(self) -> int {
        signed(self as int, 32)
    }

    open spec fn is_raw(raw: int) -> bool {
        fits(raw, 32)
    }

    proof fn lane_laws(x: Self) {
        assert(m32::mask_width() == Self::width());
    }

    proof fn raws_fit(raw: int) {
    }

    proof fn raw_injective(a: Self, b: Self) {
    }

    fn bits() -> (r: u32) {
        32
    }

    fn to_raw(self) -> (r: i64) {
        let s = self as i32;
        assert(s == signed(self as int, 32)) by (bit_vector)
            requires
                s == self as i32,
        ;
        s as i64
    }

    fn from_raw(raw: i64) -> (r: Self) {
        let s = raw as i32;
        let r = s as u32;
        assert(signed(r as int, 32) == s) by (bit_vector)
            requires
                r == s as u32,
        ;
        r
    }
}

impl Scalar for u32 {
    proof fn every_raw(raw: int) {
    }
}

impl Zeroable for u64 {
    open spec fn zero() -> u64 {
        0
    }

    fn zeroed() -> (r: u64) {
        0
    }
}

impl Lane for u64 {
    type Mask = m64;

    open spec fn width() -> nat {
        64
    }

    open spec fn raw(self) -> int {
        signed(self as int, 64)
    }

    open spec fn is_raw(raw: int) -> bool {
        fits(raw, 64)
    }

    proof fn lane_laws(x: Self) {
        assert(m64::mask_width() == Self::width());
    }

    proof fn raws_fit(raw: int) {
    }

    proof fn raw_injective(a: Self, b: Self) {
    }

    fn bits() -> (r: u32) {
        64
    }

    fn to_raw(self) -> (r: i64) {
        let s = self as i64;
        assert(s == signed(self as int, 64)) by (bit_vector)
            requires
                s == self as i64,
        ;
        s as i64
    }

    fn from_raw(raw: i64) -> (r: Self) {
        let s = raw as i64;
        let r = s as u64;
        assert(signed(r as int, 64) == s) by (bit_vector)
            requires
                r == s as u64,
        ;
        r
    }
}

impl Scalar for u64 {
    proof fn every_raw(raw: int) {
    }
}

impl Zeroable for usize {
    open spec fn zero() -> usize {
        0
    }

    fn zeroed() -> (r: usize) {
        0
    }
}

impl Lane for usize {
    type Mask = msize;

    open spec fn width() -> nat {
        usize::BITS as nat
    }

    open spec fn raw(self) -> int {
        signed(self as int, usize::BITS as nat)
    }

    open spec fn is_raw(raw: int) -> bool {
        fits(raw, usize::BITS as nat)
    }

    proof fn lane_laws(x: Self) {
        assert(msize::mask_width() == Self::width());
    }

    proof fn raws_fit(raw: int) {
    }

    proof fn raw_injective(a: Self, b: Self) {
    }

    fn bits() -> (r: u32) {
        usize::BITS
    }

    fn to_raw(self) -> (r: i64) {
        let s = self as isize;
        assert(s == signed(self as int, usize::BITS as nat)) by (bit_vector)
            requires
                s == self as isize,
        ;
        s as i64
    }

    fn from_raw(raw: i64) -> (r: Self) {
        let s = raw as isize;
        let r = s as usize;
        assert(signed(r as int, usize::BITS as nat) == s) by (bit_vector)
            requires
                r == s as usize,
        ;
        r
    }
}

impl Scalar for usize {
    proof fn every_raw(raw: int) {
    }
}

impl Zeroable for i8 {
    open spec fn zero() -> i8 {
        0
    }

    fn zeroed() -> (r: i8) {
        0
    }
}

impl Lane for i8 {
    type Mask = m8;

    open spec fn width() -> nat {
        8
    }

    open spec fn raw(self) -> int {
        self as int
    }

    open spec fn is_raw(raw: int) -> bool {
        fits(raw, 8)
    }

    proof fn lane_laws(x: Self) {
        assert(m8::mask_width() == Self::width());
    }

    proof fn raws_fit(raw: int) {
    }

    proof fn raw_injective(a: Self, b: Self) {
    }

    fn bits() -> (r: u32) {
        8
    }

    fn to_raw(self) -> (r: i64) {
        self as i64
    }

    fn from_raw(raw: i64) -> (r: Self) {
        raw as i8
    }
}

impl Scalar for i8 {
    proof fn every_raw(raw: int) {
    }
}

impl Zeroable for i16 {
    open spec fn zero() -> i16 {
        0
    }

    fn zeroed() -> (r: i16) {
        0
    }
}

impl Lane for i16 {
    type Mask = m16;

    open spec fn width() -> nat {
        16
    }

    open spec fn raw(self) -> int {
        self as int
    }

    open spec fn is_raw(raw: int) -> bool {
        fits(raw, 16)
    }

    proof fn lane_laws(x: Self) {
        assert(m16::mask_width() == Self::width());
    }

    proof fn raws_fit(raw: int) {
    }

    proof fn raw_injective(a: Self, b: Self) {
    }

    fn bits() -> (r: u32) {
        16
    }

    fn to_raw(self) -> (r: i64) {
        self as i64
    }

    fn from_raw(raw: i64) -> (r: Self) {
        raw as i16
    }
}

impl Scalar for i16 {
    proof fn every_raw(raw: int) {
    }
}

impl Zeroable for i32 {
    open spec fn zero() -> i32 {
        0
    }

    fn zeroed() -> (r: i32) {
        0
    }
}

impl Lane for i32 {
    type Mask = m32;

    open spec fn width() -> nat {
        32
    }

    open spec fn raw(self) -> int {
        self as int
    }

    open spec fn is_raw(raw: int) -> bool {
        fits(raw, 32)
    }

    proof fn lane_laws(x: Self) {
        assert(m32::mask_width() == Self::width());
    }

    proof fn raws_fit(raw: int) {
    }

    proof fn raw_injective(a: Self, b: Self) {
    }

    fn bits() -> (r: u32) {
        32
    }

    fn to_raw(self) -> (r: i64) {
        self as i64
    }

    fn from_raw(raw: i64) -> (r: Self) {
        raw as i32
    }
}

impl Scalar for i32 {
    proof fn every_raw(raw: int) {
    }
}

impl Zeroable for i64 {
    open spec fn zero() -> i64 {
        0
    }

    fn zeroed() -> (r: i64) {
        0
    }
}

impl Lane for i64 {
    type Mask = m64;

    open spec fn width() -> nat {
        64
    }

    open spec fn raw(self) -> int {
        self as int
    }

    open spec fn is_raw(raw: int) -> bool {
        fits(raw, 64)
    }

    proof fn lane_laws(x: Self) {
        assert(m64::mask_width() == Self::width());
    }

    proof fn raws_fit(raw: int) {
    }

    proof fn raw_injective(a: Self, b: Self) {
    }

    fn bits() -> (r: u32) {
        64
    }

    fn to_raw(self) -> (r: i64) {
        self as i64
    }

    fn from_raw(raw: i64) -> (r: Self) {
        raw as i64
    }
}

impl Scalar for i64 {
    proof fn every_raw(raw: int) {
    }
}

impl Zeroable for isize {
    open spec fn zero() -> isize {
        0
    }

    fn zeroed() -> (r: isize) {
        0
    }
}

impl Lane for isize {
    type Mask = msize;

    open spec fn width() -> nat {
        usize::BITS as nat
    }

    open spec fn raw(self) -> int {
        self as int
    }

    open spec fn is_raw(raw: int) -> bool {
        fits(raw, usize::BITS as nat)
    }

    proof fn lane_laws(x: Self) {
        assert(msize::mask_width() == Self::width());
    }

    proof fn raws_fit(raw: int) {
    }

    proof fn raw_injective(a: Self, b: Self) {
    }

    fn bits() -> (r: u32) {
        usize::BITS
    }

    fn to_raw(self) -> (r: i64) {
        self as i64
    }

    fn from_raw(raw: i64) -> (r: Self) {
        raw as isize
    }
}

impl Scalar for isize {
    proof fn every_raw(raw: int) {
    }
}

impl Zeroable for Float32 {
    open spec fn zero() -> Float32 {
        Float32 { bits: 0 }
    }

    fn zeroed() -> (r: Float32) {
        Float32 { bits: 0 }
    }
}

impl Lane for Float32 {
    type Mask = m32;

    open spec fn width() -> nat {
        32
    }

    open spec fn raw(self) -> int {
        self.spec_to_bits().raw()
    }

    open spec fn is_raw(raw: int) -> bool {
        fits(raw, 32)
    }

    proof fn lane_laws(x: Self) {
        assert(m32::mask_width() == Self::width());
    }

    proof fn raws_fit(raw: int) {
    }

    proof fn raw_injective(a: Self, b: Self) {
    }

    fn bits() -> (r: u32) {
        32
    }

    fn to_raw(self) -> (r: i64) {
        self.bits.to_raw()
    }

    fn from_raw(raw: i64) -> (r: Self) {
        Float32 { bits: u32::from_raw(raw) }
    }
}

impl Scalar for Float32 {
    proof fn every_raw(raw: int) {
    }
}

impl Zeroable for Float64 {
    open spec fn zero() -> Float64 {
        Float64 { bits: 0 }
    }

    fn zeroed() -> (r: Float64) {
        Float64 { bits: 0 }
    }
}

impl Lane for Float64 {
    type Mask = m64;

    open spec fn width() -> nat {
        64
    }

    open spec fn raw(self) -> int {
        self.spec_to_bits().raw()
    }

    open spec fn is_raw(raw: int) -> bool {
        fits(raw, 64)
    }

    proof fn lane_laws(x: Self) {
        assert(m64::mask_width() == Self::width());
    }

    proof fn raws_fit(raw: int) {
    }

    proof fn raw_injective(a: Self, b: Self) {
    }

    fn bits() -> (r: u32) {
        64
    }

    fn to_raw(self) -> (r: i64) {
        self.bits.to_raw()
    }

    fn from_raw(raw: i64) -> (r: Self) {
        Float64 { bits: u64::from_raw(raw) }
    }
}

impl Scalar for Float64 {
    proof fn every_raw(raw: int) {
    }
}

} // verus!
