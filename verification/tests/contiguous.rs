use lanewise::muck::contiguous::{from_int, is_valid, to_int, Contiguous};
use lanewise::ordered::OrderTag;
use lanewise::simd::{m16, m32, m64, m8, msize};

#[test]
fn boolean_range_is_zero_to_one() {
    assert_eq!(<bool as Contiguous>::MIN, 0);
    assert_eq!(<bool as Contiguous>::MAX, 1);
    assert_eq!(from_int::<bool>(0), Some(false));
    assert_eq!(from_int::<bool>(1), Some(true));
    assert_eq!(from_int::<bool>(2), None);
    assert_eq!(from_int::<bool>(255), None);
}

#[test]
fn range_ends_are_valid_and_their_neighbours_are_not() {
    assert!(is_valid::<bool>(<bool as Contiguous>::MIN));
    assert!(is_valid::<bool>(<bool as Contiguous>::MAX));
    assert!(!is_valid::<bool>(<bool as Contiguous>::MAX + 1));

    assert!(is_valid::<OrderTag>(<OrderTag as Contiguous>::MIN));
    assert!(is_valid::<OrderTag>(<OrderTag as Contiguous>::MAX));
    assert!(!is_valid::<OrderTag>(<OrderTag as Contiguous>::MIN - 1));
    assert!(!is_valid::<OrderTag>(<OrderTag as Contiguous>::MAX + 1));
    assert!(is_valid::<OrderTag>(0));
    assert!(!is_valid::<OrderTag>(i8::MIN));
    assert!(!is_valid::<OrderTag>(i8::MAX));

    assert!(is_valid::<m8>(<m8 as Contiguous>::MIN));
    assert!(is_valid::<m8>(<m8 as Contiguous>::MAX));
    assert!(!is_valid::<m8>(<m8 as Contiguous>::MIN - 1));
    assert!(!is_valid::<m8>(<m8 as Contiguous>::MAX + 1));
    assert!(!is_valid::<m32>(-2));
    assert!(!is_valid::<m32>(1));
    assert!(is_valid::<m64>(-1));
    assert!(is_valid::<msize>(0));
    assert!(!is_valid::<m16>(i16::MAX));
}

#[test]
fn integers_span_their_whole_range() {
    assert_eq!(<u8 as Contiguous>::MIN, u8::MIN);
    assert_eq!(<u8 as Contiguous>::MAX, u8::MAX);
    assert_eq!(<i64 as Contiguous>::MIN, i64::MIN);
    assert_eq!(<i64 as Contiguous>::MAX, i64::MAX);
    assert_eq!(<u128 as Contiguous>::MAX, u128::MAX);
    assert_eq!(<isize as Contiguous>::MIN, isize::MIN);
    assert!(is_valid::<u8>(0));
    assert!(is_valid::<u8>(255));
    assert!(is_valid::<i16>(i16::MIN));
    assert!(is_valid::<i16>(i16::MAX));
    assert!(is_valid::<u128>(u128::MAX));
    assert!(is_valid::<i128>(i128::MIN));
    assert_eq!(from_int::<u32>(0xdead_beef), Some(0xdead_beef));
    assert_eq!(from_int::<i8>(-128), Some(-128));
    assert_eq!(to_int(77u64), 77);
    assert_eq!(to_int(-3isize), -3);
}

#[test]
fn order_tags_and_masks_from_integers() {
    assert_eq!(from_int::<OrderTag>(-1), Some(OrderTag::Less));
    assert_eq!(from_int::<OrderTag>(0), Some(OrderTag::Equal));
    assert_eq!(from_int::<OrderTag>(1), Some(OrderTag::Greater));
    assert_eq!(from_int::<OrderTag>(2), None);
    assert_eq!(from_int::<OrderTag>(-2), None);
    assert_eq!(from_int::<m8>(-1), Some(m8::True));
    assert_eq!(from_int::<m8>(0), Some(m8::False));
    assert_eq!(from_int::<m8>(1), None);
    assert_eq!(from_int::<m64>(i64::MIN), None);
    assert_eq!(from_int::<msize>(-1), Some(msize::True));
}

#[test]
fn values_convert_to_their_integers_and_back() {
    assert_eq!(to_int(false), 0);
    assert_eq!(to_int(true), 1);
    assert_eq!(to_int(OrderTag::Less), -1);
    assert_eq!(to_int(OrderTag::Equal), 0);
    assert_eq!(to_int(OrderTag::Greater), 1);
    assert_eq!(to_int(m16::True), -1);
    assert_eq!(to_int(m16::False), 0);
    for value in [false, true] {
        assert_eq!(from_int::<bool>(to_int(value)), Some(value));
    }
    for value in [OrderTag::Less, OrderTag::Equal, OrderTag::Greater] {
        assert_eq!(from_int::<OrderTag>(to_int(value)), Some(value));
        assert!(is_valid::<OrderTag>(to_int(value)));
    }
    for value in [m32::False, m32::True] {
        assert_eq!(from_int::<m32>(to_int(value)), Some(value));
    }
}

#[test]
fn trait_methods_agree_with_the_functions() {
    assert_eq!(<bool as Contiguous>::from_int(1), Some(true));
    assert_eq!(<bool as Contiguous>::from_int(3), None);
    assert_eq!(Contiguous::to_int(true), 1u8);
    assert_eq!(<m8 as Contiguous>::from_int(-1), Some(m8::True));
    assert_eq!(<m8 as Contiguous>::from_int(-3), None);
    assert_eq!(<u16 as Contiguous>::from_int(9), Some(9));
    assert_eq!(<bool as Contiguous>::from_int_unchecked(0), false);
    assert_eq!(<OrderTag as Contiguous>::from_int_unchecked(1), OrderTag::Greater);
}
