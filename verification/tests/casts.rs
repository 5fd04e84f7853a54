use core::mem::MaybeUninit;
use lanewise::muck::cast::{cast, cast_ref, cast_slice};
use lanewise::muck::no_uninit::write_raw;
use lanewise::muck::pod::read_raw;
use lanewise::muck::{
    fill_zeros, forget, init_zeroed, write_zeroed, zeroed, NoUninit, Pod, Zeroable,
};
use lanewise::simd::{m32, m8, Float32};
use lanewise::types::{f32x4, i32x4, i8x4, m32x4, u16x2, u16x8, u32x2, u32x4, u8x16, u8x4};

fn bytes_of<T: NoUninit>(value: &T) -> Vec<u8> {
    let mut out = Vec::new();
    value.write_bytes(&mut out);
    out
}

#[test]
fn bytes_of_scalars() {
    assert_eq!(bytes_of(&0x12u8), vec![0x12]);
    assert_eq!(bytes_of(&0x1234u16), vec![0x34, 0x12]);
    assert_eq!(bytes_of(&0x1234_5678u32), vec![0x78, 0x56, 0x34, 0x12]);
    assert_eq!(
        bytes_of(&0x0102_0304_0506_0708u64),
        vec![0x08, 0x07, 0x06, 0x05, 0x04, 0x03, 0x02, 0x01]
    );
    assert_eq!(bytes_of(&-1i8), vec![0xff]);
    assert_eq!(bytes_of(&-2i16), vec![0xfe, 0xff]);
    assert_eq!(bytes_of(&i32::MIN), vec![0, 0, 0, 0x80]);
    assert_eq!(bytes_of(&-1i64), vec![0xff; 8]);
    assert_eq!(bytes_of(&Float32::from_bits(1.0f32.to_bits())), vec![0, 0, 0x80, 0x3f]);
    assert_eq!(bytes_of(&m8::True), vec![0xff]);
    assert_eq!(bytes_of(&m32::True), vec![0xff; 4]);
    assert_eq!(bytes_of(&m32::False), vec![0; 4]);
    assert_eq!(bytes_of(&usize::MAX), vec![0xff; core::mem::size_of::<usize>()]);
}

#[test]
fn bytes_of_vectors_and_arrays() {
    let v = u16x2::from_array([0x0102, 0x0304]);
    assert_eq!(bytes_of(&v), vec![2, 1, 4, 3]);
    assert_eq!(bytes_of(&[0x0102u16, 0x0304]), vec![2, 1, 4, 3]);
    assert_eq!(bytes_of(&[v, v]), vec![2, 1, 4, 3, 2, 1, 4, 3]);
    let empty: [u32; 0] = [];
    assert_eq!(bytes_of(&empty), Vec::<u8>::new());
}

#[test]
fn written_bytes_are_appended() {
    let mut out = vec![9u8, 9];
    0xabcdu16.write_bytes(&mut out);
    assert_eq!(out, vec![9, 9, 0xcd, 0xab]);
    write_raw(-2, 3, &mut out);
    assert_eq!(out, vec![9, 9, 0xcd, 0xab, 0xfe, 0xff, 0xff]);
    write_raw(0x0102, 0, &mut out);
    assert_eq!(out.len(), 7);
    write_raw(0x0102_0304_0506_0708, 8, &mut out);
    assert_eq!(&out[7..], &[8, 7, 6, 5, 4, 3, 2, 1]);
}

#[test]
fn raw_integers_are_read_from_bytes() {
    let bytes = [0xff, 0x01, 0x80, 0x00, 0x00, 0x00, 0x00, 0x80, 0x7f];
    assert_eq!(read_raw(&bytes, 0, 1), -1);
    assert_eq!(read_raw(&bytes, 1, 1), 1);
    assert_eq!(read_raw(&bytes, 8, 1), 127);
    assert_eq!(read_raw(&bytes, 0, 2), 0x01ff);
    assert_eq!(read_raw(&bytes, 1, 2), -0x7fff);
    assert_eq!(read_raw(&bytes, 0, 4), 0x0080_01ff);
    assert_eq!(read_raw(&bytes, 4, 4), i32::MIN as i64);
    assert_eq!(read_raw(&bytes, 0, 8), i64::MIN + 0x0080_01ff);
    assert_eq!(read_raw(&bytes, 1, 8), 0x7f80_0000_0000_8001);
}

#[test]
fn values_are_read_from_bytes() {
    let bytes = [1u8, 2, 3, 4, 5, 6, 7, 8];
    assert_eq!(u8::read_bytes(&bytes, 3), 4);
    assert_eq!(u16::read_bytes(&bytes, 0), 0x0201);
    assert_eq!(u32::read_bytes(&bytes, 4), 0x0807_0605);
    assert_eq!(i64::read_bytes(&bytes, 0), 0x0807_0605_0403_0201);
    assert_eq!(<[u16; 2]>::read_bytes(&bytes, 2), [0x0403, 0x0605]);
    assert_eq!(u16x2::read_bytes(&bytes, 4), u16x2::from_array([0x0605, 0x0807]));
    assert_eq!(Float32::read_bytes(&bytes, 0).to_bits(), 0x0403_0201);
    assert_eq!(i8::read_bytes(&[0x80], 0), -128);
}

#[test]
fn cast_between_scalars() {
    assert_eq!(cast::<u32, i32>(0xffff_ffff), -1);
    assert_eq!(cast::<i32, u32>(-2), 0xffff_fffe);
    assert_eq!(cast::<u8, i8>(0x80), i8::MIN);
    assert_eq!(cast::<Float32, u32>(Float32::from_bits(1.0f32.to_bits())), 0x3f80_0000);
    assert_eq!(f32::from_bits(cast::<u32, Float32>(0x4000_0000).to_bits()), 2.0);
    assert_eq!(cast::<m32, i32>(m32::True), -1);
    assert_eq!(cast::<m8, u8>(m8::False), 0);
    assert_eq!(cast::<u64, i64>(u64::MAX), -1);
}

#[test]
fn cast_between_vectors_of_one_size() {
    let v = u32x4::from_array([1, 2, 0xffff_ffff, 0x0403_0201]);
    let signed: i32x4 = cast(v);
    assert_eq!(signed.to_array(), [1, 2, -1, 0x0403_0201]);
    let bytes: u8x16 = cast(v);
    assert_eq!(bytes.to_array(), [1, 0, 0, 0, 2, 0, 0, 0, 255, 255, 255, 255, 1, 2, 3, 4]);
    let back: u32x4 = cast(bytes);
    assert_eq!(back, v);
    let halves: u16x8 = cast(v);
    assert_eq!(halves.to_array(), [1, 0, 2, 0, 0xffff, 0xffff, 0x0201, 0x0403]);
    let array: [u32; 4] = cast(v);
    assert_eq!(array, v.to_array());
    let mask = m32x4::from_array([m32::True, m32::False, m32::False, m32::True]);
    let raw: i32x4 = cast(mask);
    assert_eq!(raw.to_array(), [-1, 0, 0, -1]);
    let floats: f32x4 = cast(u32x4::from_array([0x3f80_0000, 0, 0, 0]));
    assert_eq!(f32::from_bits(floats.lane(0).to_bits()), 1.0);
    let word: u32 = cast(u8x4::from_array([0x78, 0x56, 0x34, 0x12]));
    assert_eq!(word, 0x1234_5678);
    let lanes: i8x4 = cast(0xff00_80ffu32);
    assert_eq!(lanes.to_array(), [-1, -128, 0, -1]);
}

#[test]
fn cast_of_a_borrowed_value() {
    let v = u32x2::from_array([0x0403_0201, 0x0807_0605]);
    let word: u64 = cast_ref(&v);
    assert_eq!(word, 0x0807_0605_0403_0201);
    let lanes: [u8; 8] = cast_ref(&word);
    assert_eq!(lanes, [1, 2, 3, 4, 5, 6, 7, 8]);
    assert_eq!(v.to_array(), [0x0403_0201, 0x0807_0605]);
}

#[test]
fn cast_of_slices_recomputes_the_length() {
    let words = [0x0403_0201u32, 0x0807_0605, 0xffff_ffff];
    let bytes: Vec<u8> = cast_slice(&words);
    assert_eq!(bytes.len(), 3 * 4 / 1);
    assert_eq!(bytes, vec![1, 2, 3, 4, 5, 6, 7, 8, 255, 255, 255, 255]);
    let halves: Vec<u16> = cast_slice(&words);
    assert_eq!(halves, vec![0x0201, 0x0403, 0x0605, 0x0807, 0xffff, 0xffff]);
    let same: Vec<i32> = cast_slice(&words);
    assert_eq!(same, vec![0x0403_0201, 0x0807_0605, -1]);
    let vecs = [u32x2::from_array([1, 2]), u32x2::from_array([3, 4])];
    let lanes: Vec<u32> = cast_slice(&vecs);
    assert_eq!(lanes, vec![1, 2, 3, 4]);
    let pairs: Vec<u16x2> = cast_slice(&vecs);
    assert_eq!(pairs.len(), 4);
    assert_eq!(pairs[2], u16x2::from_array([3, 0]));
    let none: [u32; 0] = [];
    assert!(cast_slice::<u32, u8>(&none).is_empty());
}

#[test]
fn zeroed_values() {
    assert_eq!(zeroed::<u32>(), 0);
    assert_eq!(zeroed::<i64>(), 0);
    assert_eq!(zeroed::<m8>(), m8::False);
    assert_eq!(zeroed::<Float32>().to_bits(), 0);
    assert_eq!(zeroed::<[u16; 3]>(), [0, 0, 0]);
    assert_eq!(zeroed::<u8x4>().to_array(), [0; 4]);
    assert_eq!(<u8 as Zeroable>::zeroed(), 0);
    assert_eq!(bytes_of(&zeroed::<u32x4>()), vec![0; 16]);
    assert_eq!(bytes_of(&zeroed::<m32x4>()), vec![0; 16]);
    assert_eq!(bytes_of(&zeroed::<i64>()), vec![0; 8]);
}

#[test]
fn slices_and_values_are_filled_with_zeros() {
    let mut values = [1u32, 2, 3];
    let filled = fill_zeros(&mut values);
    assert_eq!(filled.len(), 3);
    filled[1] = 7;
    assert_eq!(values, [0, 7, 0]);
    let mut masks = [m8::True, m8::True];
    fill_zeros(&mut masks);
    assert_eq!(masks, [m8::False, m8::False]);
    let mut nothing: [u8; 0] = [];
    assert!(fill_zeros(&mut nothing).is_empty());

    let mut word = 0xdead_beefu32;
    let target = write_zeroed(&mut word);
    assert_eq!(*target, 0);
    *target += 5;
    assert_eq!(word, 5);
    let mut vector = u8x4::from_array([1, 2, 3, 4]);
    write_zeroed(&mut vector);
    assert_eq!(vector.to_array(), [0; 4]);
}

#[test]
fn uninitialized_slot_is_initialized_with_zero() {
    let mut slot: MaybeUninit<u64> = MaybeUninit::uninit();
    let value = init_zeroed(&mut slot);
    assert_eq!(*value, 0);
    *value = 3;
    let mut full = MaybeUninit::new(0xffff_ffffu32);
    assert_eq!(*init_zeroed(&mut full), 0);
    let mut mask = MaybeUninit::new(m32::True);
    assert_eq!(*init_zeroed(&mut mask), m32::False);
}

#[test]
fn forgettable_values_are_forgotten() {
    forget(5u8);
    forget([1u32, 2, 3]);
    forget(u8x4::from_array([1, 2, 3, 4]));
    forget(Some(m8::True));
    let kept = 9u16;
    forget(&kept);
    assert_eq!(kept, 9);
}
