use core::cmp::Ordering;
use lanewise::ordered::{
    _compare, compare, is_eq, is_ge, is_gt, is_le, is_lt, is_ne, OrderTag, Ordered, Sealed, Wit,
};

#[test]
fn integers_compare_by_value() {
    assert_eq!(compare(3u8, 5u8), Ordering::Less);
    assert_eq!(compare(5u8, 3u8), Ordering::Greater);
    assert_eq!(compare(5u8, 5u8), Ordering::Equal);
    assert_eq!(compare(u16::MAX, 0), Ordering::Greater);
    assert_eq!(compare(0u32, u32::MAX), Ordering::Less);
    assert_eq!(compare(u64::MAX, u64::MAX), Ordering::Equal);
    assert_eq!(compare(u128::MAX, u128::MAX - 1), Ordering::Greater);
    assert_eq!(compare(0usize, 1usize), Ordering::Less);
    assert_eq!(compare(-1i8, 1i8), Ordering::Less);
    assert_eq!(compare(i8::MIN, i8::MAX), Ordering::Less);
    assert_eq!(compare(i16::MAX, i16::MIN), Ordering::Greater);
    assert_eq!(compare(-7i32, -7i32), Ordering::Equal);
    assert_eq!(compare(i64::MIN, -1i64), Ordering::Less);
    assert_eq!(compare(i128::MAX, i128::MIN), Ordering::Greater);
    assert_eq!(compare(-1isize, -2isize), Ordering::Greater);
}

#[test]
fn booleans_characters_and_tags_compare() {
    assert_eq!(compare(false, true), Ordering::Less);
    assert_eq!(compare(true, false), Ordering::Greater);
    assert_eq!(compare(true, true), Ordering::Equal);
    assert_eq!(compare(false, false), Ordering::Equal);
    assert_eq!(compare('a', 'b'), Ordering::Less);
    assert_eq!(compare('z', 'a'), Ordering::Greater);
    assert_eq!(compare('\u{10FFFF}', '\u{10FFFF}'), Ordering::Equal);
    assert_eq!(compare('\0', '\u{E000}'), Ordering::Less);
    let tags = [OrderTag::Less, OrderTag::Equal, OrderTag::Greater];
    for (i, a) in tags.iter().enumerate() {
        for (j, b) in tags.iter().enumerate() {
            assert_eq!(compare(*a, *b), i.cmp(&j));
            assert_eq!(_compare(*a, *b), i.cmp(&j));
        }
    }
}

#[test]
fn comparison_predicates() {
    assert!(is_eq(4u8, 4u8));
    assert!(!is_eq(4u8, 5u8));
    assert!(is_ne(4i32, 5i32));
    assert!(!is_ne('x', 'x'));
    assert!(is_gt(5i64, 4i64));
    assert!(!is_gt(4i64, 4i64));
    assert!(is_ge(4u16, 4u16));
    assert!(is_ge(5u16, 4u16));
    assert!(!is_ge(3u16, 4u16));
    assert!(is_lt(false, true));
    assert!(!is_lt(true, true));
    assert!(is_le(true, true));
    assert!(is_le(OrderTag::Less, OrderTag::Greater));
    assert!(!is_le(OrderTag::Greater, OrderTag::Equal));
}

#[test]
fn bounds_of_the_ordered_types() {
    assert_eq!(<bool as Ordered>::MIN, false);
    assert_eq!(<bool as Ordered>::MAX, true);
    assert_eq!(<char as Ordered>::MIN, char::MIN);
    assert_eq!(<char as Ordered>::MAX, char::MAX);
    assert_eq!(<OrderTag as Ordered>::MIN, OrderTag::Less);
    assert_eq!(<OrderTag as Ordered>::MAX, OrderTag::Greater);
    assert_eq!(<u8 as Ordered>::MIN, 0);
    assert_eq!(<u8 as Ordered>::MAX, 255);
    assert_eq!(<i128 as Ordered>::MIN, i128::MIN);
    assert_eq!(<usize as Ordered>::MAX, usize::MAX);
    assert!(is_le(<i32 as Ordered>::MIN, <i32 as Ordered>::MAX));
    assert!(is_ge(<char as Ordered>::MAX, <char as Ordered>::MIN));
}

#[test]
fn trait_method_compares_like_the_function() {
    assert_eq!(Ordered::compare(1u8, 2u8), Ordering::Less);
    assert_eq!(Ordered::compare('b', 'a'), Ordering::Greater);
    assert_eq!(Ordered::compare(true, true), Ordering::Equal);
}

#[test]
fn witnesses_show_the_value() {
    assert!(matches!(7u8.witness(), Wit::U8(7)));
    assert!(matches!(true.witness(), Wit::Bool(true)));
    assert!(matches!('q'.witness(), Wit::Char('q')));
    assert!(matches!((-9i64).witness(), Wit::I64(-9)));
    assert!(matches!(OrderTag::Equal.witness(), Wit::Tag(OrderTag::Equal)));
}

#[test]
fn order_tags_and_orderings_convert() {
    assert_eq!(OrderTag::from_ordering(Ordering::Less), OrderTag::Less);
    assert_eq!(OrderTag::from_ordering(Ordering::Equal), OrderTag::Equal);
    assert_eq!(OrderTag::from_ordering(Ordering::Greater), OrderTag::Greater);
    assert_eq!(OrderTag::Less.to_ordering(), Ordering::Less);
    assert_eq!(OrderTag::Equal.to_ordering(), Ordering::Equal);
    assert_eq!(OrderTag::Greater.to_ordering(), Ordering::Greater);
}
