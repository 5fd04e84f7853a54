use super::bytes;
use super::bytes::{first_occurrence, occurs_at};
use vstd::prelude::*;
use vstd::string::StringSliceAdditionalSpecFns;
use vstd::utf8::{
    encode_utf8_decode_utf8, encode_utf8_valid_utf8, is_char_boundary,
    is_char_boundary_iff_not_is_continuation_byte, is_char_boundary_start_end_of_seq,
    length_of_first_scalar, pop_first_scalar, valid_utf8,
};

verus! {

/// Where a UTF-8 text begins with another, the other ends on a character boundary of the
/// text.
pub proof fn lemma_prefix_ends_on_boundary(prefix: Seq<u8>, text: Seq<u8>)
    requires
        valid_utf8(prefix),
        valid_utf8(text),
        prefix.is_prefix_of(text),
    ensures
        is_char_boundary(text, prefix.len() as int),
    decreases prefix.len(),
{
    if prefix.len() > 0 {
        assert(text[0] == prefix[0]);
        assert(length_of_first_scalar(prefix) == length_of_first_scalar(text));
        let (shorter, rest) = (pop_first_scalar(prefix), pop_first_scalar(text));
        assert(shorter =~= rest.subrange(0, shorter.len() as int));
        lemma_prefix_ends_on_boundary(shorter, rest);
    }
}

/// Where a UTF-8 text that is not empty occurs in another, it begins on a character
/// boundary of the other.
pub proof fn lemma_occurrence_begins_on_boundary(needle: Seq<u8>, text: Seq<u8>, at: int)
    requires
        valid_utf8(needle),
        valid_utf8(text),
        needle.len() > 0,
        occurs_at(needle, text, at),
    ensures
        is_char_boundary(text, at),
{
    assert(text[at] == text.subrange(at, at + needle.len())[0]);
    is_char_boundary_iff_not_is_continuation_byte(text, at);
}

/// Determine if two strings hold the same text.
pub fn is_eq(lhs: &str, rhs: &str) -> (r: bool)
    ensures
        r == (lhs@ == rhs@),
        r == (lhs.spec_bytes() == rhs.spec_bytes()),
{
    proof {
        encode_utf8_decode_utf8(lhs@);
        encode_utf8_decode_utf8(rhs@);
    }
    bytes::is_eq(lhs.as_bytes(), rhs.as_bytes())
}

/// Determine if two strings hold different texts.
pub fn is_ne(lhs: &str, rhs: &str) -> (r: bool)
    ensures
        r == (lhs@ != rhs@),
        r == (lhs.spec_bytes() != rhs.spec_bytes()),
{
    proof {
        encode_utf8_decode_utf8(lhs@);
        encode_utf8_decode_utf8(rhs@);
    }
    bytes::is_ne(lhs.as_bytes(), rhs.as_bytes())
}

/// Determine if the UTF-8 bytes of `haystack` begin with those of `prefix`.
pub fn starts_with(prefix: &str, haystack: &str) -> (r: bool)
    ensures
        r == prefix.spec_bytes().is_prefix_of(haystack.spec_bytes()),
{
    bytes::starts_with(prefix.as_bytes(), haystack.as_bytes())
}

/// Determine if the UTF-8 bytes of `haystack` end with those of `suffix`.
pub fn ends_with(suffix: &str, haystack: &str) -> (r: bool)
    ensures
        r == suffix.spec_bytes().is_suffix_of(haystack.spec_bytes()),
{
    bytes::ends_with(suffix.as_bytes(), haystack.as_bytes())
}

/// What is left of `haystack` behind `prefix`, if it begins with `prefix`.
pub fn strip_prefix<'a>(prefix: &str, haystack: &'a str) -> (r: Option<&'a str>)
    ensures
        r.is_some() == prefix.spec_bytes().is_prefix_of(haystack.spec_bytes()),
        r matches Some(rest) ==> haystack.spec_bytes() == prefix.spec_bytes() + rest.spec_bytes(),
{
    if starts_with(prefix, haystack) {
        proof {
            encode_utf8_valid_utf8(prefix@);
            encode_utf8_valid_utf8(haystack@);
            lemma_prefix_ends_on_boundary(prefix.spec_bytes(), haystack.spec_bytes());
        }
        let (_, rest) = haystack.split_at(prefix.as_bytes().len());
        assert(haystack.spec_bytes() =~= prefix.spec_bytes() + rest.spec_bytes());
        Some(rest)
    } else {
        None
    }
}

/// What is left of `haystack` before `suffix`, if it ends with `suffix`.
pub fn strip_suffix<'a>(suffix: &str, haystack: &'a str) -> (r: Option<&'a str>)
    ensures
        r.is_some() == suffix.spec_bytes().is_suffix_of(haystack.spec_bytes()),
        r matches Some(rest) ==> haystack.spec_bytes() == rest.spec_bytes() + suffix.spec_bytes(),
{
    if ends_with(suffix, haystack) {
        let at = haystack.as_bytes().len() - suffix.as_bytes().len();
        proof {
            let (needle, text) = (suffix.spec_bytes(), haystack.spec_bytes());
            encode_utf8_valid_utf8(suffix@);
            encode_utf8_valid_utf8(haystack@);
            if needle.len() == 0 {
                is_char_boundary_start_end_of_seq(text);
            } else {
                lemma_occurrence_begins_on_boundary(needle, text, at as int);
            }
        }
        let (rest, _) = haystack.split_at(at);
        assert(haystack.spec_bytes() =~= rest.spec_bytes() + suffix.spec_bytes());
        Some(rest)
    } else {
        None
    }
}

/// The first position, counted in bytes, at which the UTF-8 bytes of `needle` occur in
/// those of `haystack`, if they occur at all.
pub fn find(needle: &str, haystack: &str) -> (r: Option<usize>)
    ensures
        match r {
            Some(at) => first_occurrence(needle.spec_bytes(), haystack.spec_bytes(), at as int),
            None => forall|at: int| !occurs_at(needle.spec_bytes(), haystack.spec_bytes(), at),
        },
{
    bytes::find(needle.as_bytes(), haystack.as_bytes())
}

/// What lies in `haystack` before and behind the first occurrence of `needle`, if it
/// occurs at all.
pub fn split<'a>(needle: &str, haystack: &'a str) -> (r: Option<(&'a str, &'a str)>)
    ensures
        match r {
            Some((before, after)) => {
                &&& first_occurrence(
                    needle.spec_bytes(),
                    haystack.spec_bytes(),
                    before.spec_bytes().len() as int,
                )
                &&& haystack.spec_bytes() == before.spec_bytes() + needle.spec_bytes()
                    + after.spec_bytes()
            },
            None => forall|at: int| !occurs_at(needle.spec_bytes(), haystack.spec_bytes(), at),
        },
{
    match find(needle, haystack) {
        Some(start) => {
            proof {
                let (word, text) = (needle.spec_bytes(), haystack.spec_bytes());
                encode_utf8_valid_utf8(needle@);
                encode_utf8_valid_utf8(haystack@);
                if word.len() == 0 {
                    assert(occurs_at(word, text, 0)) by {
                        assert(text.subrange(0, 0) =~= word);
                    }
                    assert(start == 0);
                } else {
                    lemma_occurrence_begins_on_boundary(word, text, start as int);
                }
            }
            let (before, rest) = haystack.split_at(start);
            proof {
                encode_utf8_valid_utf8(rest@);
                assert(needle.spec_bytes() =~= rest.spec_bytes().subrange(
                    0,
                    needle.spec_bytes().len() as int,
                ));
                lemma_prefix_ends_on_boundary(needle.spec_bytes(), rest.spec_bytes());
            }
            let (_, after) = rest.split_at(needle.as_bytes().len());
            assert(haystack.spec_bytes() =~= before.spec_bytes() + needle.spec_bytes()
                + after.spec_bytes());
            Some((before, after))
        },
        None => None,
    }
}

/// `char::encode_utf8` writes the UTF-8 encoding of a character into a buffer and returns
/// the part of the buffer that holds it: the result is the text of that one character.
#[verifier::external_body]
fn encode_char(c: char) -> (r: String)
    ensures
        r@ == seq![c],
{
    let mut buffer = [0u8; 4];
    c.encode_utf8(&mut buffer).to_owned()
}

/// What lies in `haystack` before and behind the first occurrence of the character
/// `needle`, if it occurs at all.
pub fn split_char(needle: char, haystack: &str) -> (r: Option<(&str, &str)>)
    ensures
        match r {
            Some((before, after)) => {
                &&& first_occurrence(
                    vstd::utf8::encode_utf8(seq![needle]),
                    haystack.spec_bytes(),
                    before.spec_bytes().len() as int,
                )
                &&& haystack.spec_bytes() == before.spec_bytes() + vstd::utf8::encode_utf8(
                    seq![needle],
                ) + after.spec_bytes()
            },
            None => forall|at: int|
                !occurs_at(vstd::utf8::encode_utf8(seq![needle]), haystack.spec_bytes(), at),
        },
{
    let encoded = encode_char(needle);
    let word = encoded.as_str();
    assert(word.spec_bytes() == vstd::utf8::encode_utf8(seq![needle]));
    split(word, haystack)
}

} // verus!
