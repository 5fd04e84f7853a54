use lanewise::util::{bytes, string};

#[test]
fn byte_slices_are_compared() {
    assert!(bytes::is_eq(b"", b""));
    assert!(bytes::is_eq(b"abc", b"abc"));
    assert!(!bytes::is_eq(b"abc", b"abd"));
    assert!(!bytes::is_eq(b"abc", b"ab"));
    assert!(!bytes::is_eq(b"xbc", b"abc"));
    assert!(!bytes::is_ne(b"abc", b"abc"));
    assert!(bytes::is_ne(b"abc", b"abcd"));
    assert!(bytes::is_ne(b"a", b"b"));
}

#[test]
fn prefixes_and_suffixes_of_byte_slices() {
    assert!(bytes::starts_with(b"", b"help"));
    assert!(bytes::starts_with(b"he", b"help"));
    assert!(bytes::starts_with(b"help", b"help"));
    assert!(!bytes::starts_with(b"helps", b"help"));
    assert!(!bytes::starts_with(b"el", b"help"));
    assert!(bytes::ends_with(b"", b"help"));
    assert!(bytes::ends_with(b"lp", b"help"));
    assert!(bytes::ends_with(b"help", b"help"));
    assert!(!bytes::ends_with(b"shelp", b"help"));
    assert!(!bytes::ends_with(b"el", b"help"));
    assert_eq!(bytes::strip_prefix(b"_CMP_", b"_CMP_EQ_OQ"), Some(&b"EQ_OQ"[..]));
    assert_eq!(bytes::strip_prefix(b"", b"ab"), Some(&b"ab"[..]));
    assert_eq!(bytes::strip_prefix(b"ab", b"ab"), Some(&b""[..]));
    assert_eq!(bytes::strip_prefix(b"b", b"ab"), None);
    assert_eq!(bytes::strip_suffix(b"_OQ", b"_CMP_EQ_OQ"), Some(&b"_CMP_EQ"[..]));
    assert_eq!(bytes::strip_suffix(b"ab", b"ab"), Some(&b""[..]));
    assert_eq!(bytes::strip_suffix(b"a", b"ab"), None);
    assert_eq!(bytes::strip_suffix(b"abc", b"bc"), None);
}

#[test]
fn first_occurrence_in_a_byte_slice() {
    assert_eq!(bytes::find(b"_", b"help_me"), Some(4));
    assert_eq!(bytes::find(b"", b"help_me"), Some(0));
    assert_eq!(bytes::find(b"", b""), Some(0));
    assert_eq!(bytes::find(b"x", b""), None);
    assert_eq!(bytes::find(b"e", b"help_me"), Some(1));
    assert_eq!(bytes::find(b"me", b"help_me"), Some(5));
    assert_eq!(bytes::find(b"help_me", b"help_me"), Some(0));
    assert_eq!(bytes::find(b"help_me!", b"help_me"), None);
    assert_eq!(bytes::find(b"mx", b"help_me"), None);
    assert_eq!(bytes::find(b"aab", b"aaab"), Some(1));
}

#[test]
fn byte_slice_split_around_a_needle() {
    assert_eq!(bytes::split(b"_", b"help_me"), Some((&b"help"[..], &b"me"[..])));
    assert_eq!(bytes::split(b"_", b"a_b_c"), Some((&b"a"[..], &b"b_c"[..])));
    assert_eq!(bytes::split(b"", b"ab"), Some((&b""[..], &b"ab"[..])));
    assert_eq!(bytes::split(b"ab", b"ab"), Some((&b""[..], &b""[..])));
    assert_eq!(bytes::split(b"-", b"help_me"), None);
}

#[test]
fn counter_is_incremented() {
    let mut n = 4usize;
    let r = bytes::inc(&mut n);
    assert_eq!(*r, 5);
    *bytes::inc(r) += 10;
    assert_eq!(n, 16);
}

#[test]
fn strings_are_compared() {
    assert!(string::is_eq("", ""));
    assert!(string::is_eq("héllo", "héllo"));
    assert!(!string::is_eq("héllo", "hello"));
    assert!(string::is_ne("a", "b"));
    assert!(!string::is_ne("same", "same"));
    assert!(string::starts_with("_CMP_", "_CMP_EQ_OQ"));
    assert!(!string::starts_with("CMP_", "_CMP_EQ_OQ"));
    assert!(string::ends_with("_OQ", "_CMP_EQ_OQ"));
    assert!(!string::ends_with("_OS", "_CMP_EQ_OQ"));
    assert!(string::starts_with("日本", "日本語"));
    assert!(string::ends_with("語", "日本語"));
}

#[test]
fn strings_are_stripped() {
    assert_eq!(string::strip_prefix("_CMP_", "_CMP_EQ_OQ"), Some("EQ_OQ"));
    assert_eq!(string::strip_prefix("", "x"), Some("x"));
    assert_eq!(string::strip_prefix("x", "x"), Some(""));
    assert_eq!(string::strip_prefix("y", "x"), None);
    assert_eq!(string::strip_prefix("日", "日本語"), Some("本語"));
    assert_eq!(string::strip_suffix("_OQ", "_CMP_EQ_OQ"), Some("_CMP_EQ"));
    assert_eq!(string::strip_suffix("語", "日本語"), Some("日本"));
    assert_eq!(string::strip_suffix("", "日本語"), Some("日本語"));
    assert_eq!(string::strip_suffix("本", "日本語"), None);
}

#[test]
fn strings_are_searched_and_split() {
    assert_eq!(string::find("_", "help_me"), Some(4));
    assert_eq!(string::find("語", "日本語"), Some(6));
    assert_eq!(string::find("", "日本語"), Some(0));
    assert_eq!(string::find("x", "日本語"), None);
    assert_eq!(string::split("_", "help_me"), Some(("help", "me")));
    assert_eq!(string::split("本", "日本語"), Some(("日", "語")));
    assert_eq!(string::split("", "ab"), Some(("", "ab")));
    assert_eq!(string::split("::", "a::b::c"), Some(("a", "b::c")));
    assert_eq!(string::split("-", "help_me"), None);
}

#[test]
fn strings_are_split_at_a_character() {
    assert_eq!(string::split_char('_', "help_me"), Some(("help", "me")));
    assert_eq!(string::split_char('é', "caféine"), Some(("caf", "ine")));
    assert_eq!(string::split_char('本', "日本語"), Some(("日", "語")));
    assert_eq!(string::split_char('😀', "a😀b😀c"), Some(("a", "b😀c")));
    assert_eq!(string::split_char('x', "help_me"), None);
    assert_eq!(string::split_char('h', "help_me"), Some(("", "elp_me")));
}
