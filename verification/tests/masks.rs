use core::cmp::Ordering;
use lanewise::muck::NoUninit;
use lanewise::simd::mask::xor;
use lanewise::simd::{m16, m32, m64, m8, msize, Float32, Lane, Mask, MaskValue};
use lanewise::types::{f32x4, i32x4, i8x8, m32x4, m8x8, u32x4, u64x2, u8x8};

#[test]
fn mask_vector_from_raw_lanes() {
    let raw = i32x4::from_array([0, -1, 0, -1]);
    assert!(raw.is_mask());
    let mask: m32x4 = raw.to_mask();
    let lanes = mask.to_array();
    assert_eq!(
        [lanes[0].to_bool(), lanes[1].to_bool(), lanes[2].to_bool(), lanes[3].to_bool()],
        [false, true, false, true]
    );
    assert_eq!(mask, m32x4::from_array([m32::False, m32::True, m32::False, m32::True]));
}

#[test]
fn vector_with_another_lane_is_no_mask() {
    let raw = i32x4::from_array([0, -1, 5, -1]);
    assert!(!raw.is_mask());
    assert_eq!(raw.try_to_mask(), None);
}

#[test]
fn is_mask_tells_zero_and_all_ones_from_the_rest() {
    assert!(i32x4::from_array([0, 0, 0, 0]).is_mask());
    assert!(i32x4::from_array([-1, -1, -1, -1]).is_mask());
    assert!(!i32x4::from_array([1, 0, 0, 0]).is_mask());
    assert!(!i32x4::from_array([0, 0, 0, -2]).is_mask());
    assert!(!i32x4::from_array([0, i32::MIN, 0, 0]).is_mask());
    assert!(!i32x4::from_array([0, 0, i32::MAX, 0]).is_mask());
    assert!(u32x4::from_array([0, u32::MAX, 0, u32::MAX]).is_mask());
    assert!(!u32x4::from_array([0, u32::MAX - 1, 0, 0]).is_mask());
    assert!(!u32x4::from_array([0x0000_ffff, 0, 0, 0]).is_mask());
    assert!(u8x8::from_array([0, 0xff, 0xff, 0, 0, 0, 0xff, 0]).is_mask());
    assert!(!u8x8::from_array([0, 0xff, 0xfe, 0, 0, 0, 0xff, 0]).is_mask());
    assert!(!u8x8::from_array([0, 0, 0, 0, 0, 0, 0, 0x80]).is_mask());
    assert!(u64x2::from_array([u64::MAX, 0]).is_mask());
    assert!(!u64x2::from_array([u64::MAX, 1 << 63]).is_mask());
    let ones = Float32::from_bits(0xffff_ffff);
    let zero = Float32::from_bits(0);
    assert!(f32x4::from_array([ones, zero, zero, ones]).is_mask());
    assert!(!f32x4::from_array([ones, zero, Float32::from_bits(1.0f32.to_bits()), ones]).is_mask());
}

#[test]
fn every_mask_vector_is_a_mask() {
    let mask = m8x8::from_array([
        m8::True,
        m8::False,
        m8::True,
        m8::True,
        m8::False,
        m8::False,
        m8::True,
        m8::False,
    ]);
    assert!(mask.is_mask());
    assert_eq!(mask.to_mask(), mask);
}

#[test]
fn to_mask_keeps_the_bytes() {
    let raw = u32x4::from_array([0, u32::MAX, u32::MAX, 0]);
    let mask = raw.to_mask();
    let mut before = Vec::new();
    let mut after = Vec::new();
    raw.write_bytes(&mut before);
    mask.write_bytes(&mut after);
    assert_eq!(before, after);
    assert_eq!(after, vec![0, 0, 0, 0, 255, 255, 255, 255, 255, 255, 255, 255, 0, 0, 0, 0]);

    let signed = i8x8::from_array([-1, 0, 0, -1, -1, -1, 0, 0]);
    let mut bytes = Vec::new();
    signed.to_mask().write_bytes(&mut bytes);
    assert_eq!(bytes, vec![255, 0, 0, 255, 255, 255, 0, 0]);
}

#[test]
fn checked_and_unchecked_bridges_agree() {
    let raw = i32x4::from_array([-1, -1, 0, 0]);
    let expected = m32x4::from_array([m32::True, m32::True, m32::False, m32::False]);
    assert_eq!(raw.try_to_mask(), Some(expected));
    assert_eq!(raw.to_mask(), expected);
    assert_eq!(raw.to_mask_unchecked(), expected);
    let ones = Float32::from_bits(u32::MAX);
    let zero = Float32::from_bits(0);
    let floats = f32x4::from_array([ones, ones, zero, zero]);
    assert_eq!(
        floats.to_mask(),
        m32x4::from_array([m32::True, m32::True, m32::False, m32::False])
    );
}

#[test]
fn eight_bit_mask_algebra() {
    let t = m8::from_bool(true);
    let f = m8::from_bool(false);
    assert_eq!(t.to_repr(), -1);
    assert_eq!(f.to_repr(), 0);
    assert_eq!(t.and(f), f);
    assert_eq!(t.or(f), t);
    assert_eq!(t.xor(t), f);
    assert_eq!(t.not(), f);
}

#[test]
fn mask_operations_are_closed_and_logical() {
    for a in [false, true] {
        for b in [false, true] {
            let (x, y) = (m16::from_bool(a), m16::from_bool(b));
            assert_eq!(x.and(y).to_bool(), a && b);
            assert_eq!(x.or(y).to_bool(), a || b);
            assert_eq!(x.xor(y).to_bool(), a != b);
            assert_eq!(x.not().to_bool(), !a);
            for r in [x.and(y), x.or(y), x.xor(y), x.not()] {
                assert!(r.to_repr() == 0 || r.to_repr() == -1);
            }
            assert_eq!(x.and(y).to_repr(), x.to_repr() & y.to_repr());
            assert_eq!(x.or(y).to_repr(), x.to_repr() | y.to_repr());
            assert_eq!(x.xor(y).to_repr(), x.to_repr() ^ y.to_repr());
            assert_eq!(x.not().to_repr(), !x.to_repr());

            let (p, q) = (m64::from_bool(a), m64::from_bool(b));
            assert_eq!(p.and(q), m64::from_bool(a && b));
            assert_eq!(p.or(q), m64::from_bool(a || b));
            assert_eq!(p.xor(q), m64::from_bool(a != b));
            let (s, t) = (msize::from_bool(a), msize::from_bool(b));
            assert_eq!(s.and(t), msize::from_bool(a && b));
            assert_eq!(s.or(t), msize::from_bool(a || b));
            assert_eq!(s.xor(t), msize::from_bool(a != b));
            assert_eq!(s.not(), msize::from_bool(!a));
        }
    }
}

#[test]
fn mask_operators() {
    assert_eq!(m8::True & m8::False, m8::False);
    assert_eq!(m8::True | m8::False, m8::True);
    assert_eq!(m8::True ^ m8::True, m8::False);
    assert_eq!(!m8::True, m8::False);
    assert_eq!(m32::True & m32::True, m32::True);
    assert_eq!(m32::False | m32::False, m32::False);
    assert_eq!(m64::False ^ m64::True, m64::True);
    assert_eq!(!msize::False, msize::True);
    assert_eq!(m16::True ^ m16::False, m16::True);
}

#[test]
fn masks_from_and_to_booleans() {
    assert_eq!(m8::from_bool(true), m8::True);
    assert_eq!(m8::from_bool(false), m8::False);
    assert!(m32::True.is_set());
    assert!(!m32::True.is_unset());
    assert!(m32::False.is_unset());
    assert!(!m32::False.is_set());
    assert!(m64::True.to_bool());
    assert!(!m64::False.to_bool());
    assert_eq!(m16::default(), m16::False);
}

#[test]
fn masks_from_their_representation() {
    assert_eq!(m8::try_from_repr(0), Some(m8::False));
    assert_eq!(m8::try_from_repr(-1), Some(m8::True));
    assert_eq!(m8::try_from_repr(1), None);
    assert_eq!(m8::try_from_repr(i8::MIN), None);
    assert_eq!(m8::try_from_repr(i8::MAX), None);
    assert_eq!(m16::try_from_repr(-2), None);
    assert_eq!(m32::try_from_repr(5), None);
    assert_eq!(m32::try_from_repr(-1), Some(m32::True));
    assert_eq!(m64::try_from_repr(i64::MIN), None);
    assert_eq!(msize::try_from_repr(-1), Some(msize::True));
    assert_eq!(msize::try_from_repr(2), None);
    assert_eq!(m16::from_repr(-1), m16::True);
    assert_eq!(m16::from_repr(0), m16::False);
    assert_eq!(m64::from_repr_unchecked(-1), m64::True);
    assert_eq!(m64::from_repr_unchecked(0), m64::False);
    assert_eq!(m32::True.to_repr(), -1);
    assert_eq!(msize::False.to_repr(), 0);
}

#[test]
fn mask_widths() {
    assert_eq!(m8::BITS, 8);
    assert_eq!(m16::BITS, 16);
    assert_eq!(m32::BITS, 32);
    assert_eq!(m64::BITS, 64);
    assert_eq!(msize::BITS, usize::BITS);
    assert_eq!(<m8 as Lane>::bits(), 8);
    assert_eq!(<msize as Lane>::bits(), usize::BITS);
    assert_eq!(<u16 as Lane>::bits(), 16);
    assert_eq!(<Float32 as Lane>::bits(), 32);
}

#[test]
fn masks_are_ordered_false_before_true() {
    assert_eq!(m8::True.compare(m8::False), Ordering::Greater);
    assert_eq!(m8::True.compare(m8::True), Ordering::Equal);
    assert_eq!(m8::False.compare(m8::True), Ordering::Less);
    assert_eq!(m8::False.compare(m8::False), Ordering::Equal);
    assert!(m32::False < m32::True);
    assert_eq!(msize::True.compare(msize::False), Ordering::Greater);
}

#[test]
fn promoted_mask_is_the_mask() {
    assert_eq!(*m8::True.promote(), m8::True);
    assert_eq!(*m8::False.promote(), m8::False);
    assert_eq!(*msize::True.promote(), msize::True);
    let mut held: &'static m8 = m8::True.promote();
    xor(&mut held, m8::True);
    assert_eq!(*held, m8::False);
    xor(&mut held, m8::True);
    assert_eq!(*held, m8::True);
    xor(&mut held, m8::False);
    assert_eq!(*held, m8::True);
}

#[test]
fn mask_trait_constants_and_operations() {
    assert_eq!(<m8 as Mask>::TRUE, m8::True);
    assert_eq!(<m8 as Mask>::FALSE, m8::False);
    assert_eq!(<m64 as Mask>::TRUE, m64::True);
    assert_eq!(<m8 as Mask>::SET, m8::True);
    assert_eq!(<m8 as Mask>::ALL, m8::True);
    assert_eq!(<m8 as Mask>::UNSET, m8::False);
    assert_eq!(<msize as Mask>::NONE, msize::False);
    assert_eq!(<m32 as MaskValue>::of_bool(true), m32::True);
    assert!(!<m32 as MaskValue>::as_bool(m32::False));
    assert_eq!(m16::True.negate(), m16::False);
    assert_eq!(m16::True.conj(m16::False), m16::False);
    assert_eq!(m16::True.disj(m16::False), m16::True);
    assert_eq!(m16::True.exor(m16::False), m16::True);
}

#[test]
fn lanes_as_raw_integers() {
    assert_eq!(0xffu8.to_raw(), -1);
    assert_eq!(0x80u8.to_raw(), -128);
    assert_eq!(0x7fu8.to_raw(), 127);
    assert_eq!(u16::MAX.to_raw(), -1);
    assert_eq!(u32::MAX.to_raw(), -1);
    assert_eq!(0x8000_0000u32.to_raw(), i32::MIN as i64);
    assert_eq!(u64::MAX.to_raw(), -1);
    assert_eq!(usize::MAX.to_raw(), -1);
    assert_eq!((-5i16).to_raw(), -5);
    assert_eq!(i64::MIN.to_raw(), i64::MIN);
    assert_eq!(m32::True.to_raw(), -1);
    assert_eq!(m32::False.to_raw(), 0);
    assert_eq!(Float32::from_bits(0x8000_0000).to_raw(), i32::MIN as i64);
    assert_eq!(u8::from_raw(-1), 0xff);
    assert_eq!(u8::from_raw(-128), 0x80);
    assert_eq!(u16::from_raw(-2), 0xfffe);
    assert_eq!(u32::from_raw(-1), u32::MAX);
    assert_eq!(u64::from_raw(i64::MIN), 1 << 63);
    assert_eq!(i8::from_raw(-7), -7);
    assert_eq!(m8::from_raw(-1), m8::True);
    assert_eq!(m64::from_raw(0), m64::False);
    assert_eq!(Float32::from_raw(-1).to_bits(), u32::MAX);
}

#[test]
fn mask_vectors_combine_lane_by_lane() {
    let a = m32x4::from_array([m32::True, m32::True, m32::False, m32::False]);
    let b = m32x4::from_array([m32::True, m32::False, m32::True, m32::False]);
    assert_eq!(a.and(b), m32x4::from_array([m32::True, m32::False, m32::False, m32::False]));
    assert_eq!(a.or(b), m32x4::from_array([m32::True, m32::True, m32::True, m32::False]));
    assert_eq!(a.xor(b), m32x4::from_array([m32::False, m32::True, m32::True, m32::False]));
    assert_eq!(a.not(), m32x4::from_array([m32::False, m32::False, m32::True, m32::True]));
    for r in [a.and(b), a.or(b), a.xor(b), a.not()] {
        assert!(r.is_mask());
    }
}
