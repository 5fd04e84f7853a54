use vstd::prelude::*;

verus! {

/// Whether `needle` occurs in `haystack` at position `at`.
pub open spec fn occurs_at(needle: Seq<u8>, haystack: Seq<u8>, at: int) -> bool {
    &&& 0 <= at
    &&& at + needle.len() <= haystack.len()
    &&& haystack.subrange(at, at + needle.len()) == needle
}

/// Whether `at` is the first position at which `needle` occurs in `haystack`.
pub open spec fn first_occurrence(needle: Seq<u8>, haystack: Seq<u8>, at: int) -> bool {
    &&& occurs_at(needle, haystack, at)
    &&& forall|earlier: int| 0 <= earlier < at ==> !occurs_at(needle, haystack, earlier)
}

/// Determine if two byte slices hold the same bytes.
pub fn is_eq(lhs: &[u8], rhs: &[u8]) -> (r: bool)
    ensures
        r == (lhs@ == rhs@),
{
    if lhs.len() != rhs.len() {
        return false;
    }
    let mut same = true;
    let mut i: usize = 0;
    assert(lhs@.take(0) =~= rhs@.take(0));
    while i < lhs.len()
        invariant
            i <= lhs@.len() == rhs@.len(),
            same == (lhs@.take(i as int) == rhs@.take(i as int)),
        decreases lhs@.len() - i,
    {
        let equal = lhs[i] == rhs[i];
        proof {
            let (l, r) = (lhs@.take(i + 1), rhs@.take(i + 1));
            assert(l.drop_last() =~= lhs@.take(i as int));
            assert(r.drop_last() =~= rhs@.take(i as int));
            if same && equal {
                assert(l =~= r);
            } else if !equal {
                assert(l[i as int] != r[i as int]);
            }
        }
        same = same && equal;
        i += 1;
    }
    assert(lhs@.take(i as int) =~= lhs@ && rhs@.take(i as int) =~= rhs@);
    same
}

/// Determine if two byte slices differ.
pub fn is_ne(lhs: &[u8], rhs: &[u8]) -> (r: bool)
    ensures
        r == (lhs@ != rhs@),
{
    !is_eq(lhs, rhs)
}

/// Determine if `haystack` begins with `prefix`.
pub fn starts_with(prefix: &[u8], haystack: &[u8]) -> (r: bool)
    ensures
        r == prefix@.is_prefix_of(haystack@),
{
    if prefix.len() <= haystack.len() {
        let (head, _) = haystack.split_at(prefix.len());
        is_eq(head, prefix)
    } else {
        false
    }
}

/// Determine if `haystack` ends with `suffix`.
pub fn ends_with(suffix: &[u8], haystack: &[u8]) -> (r: bool)
    ensures
        r == suffix@.is_suffix_of(haystack@),
{
    if suffix.len() <= haystack.len() {
        let (_, tail) = haystack.split_at(haystack.len() - suffix.len());
        is_eq(tail, suffix)
    } else {
        false
    }
}

/// What is left of `haystack` behind `prefix`, if it begins with `prefix`.
pub fn strip_prefix<'a>(prefix: &[u8], haystack: &'a [u8]) -> (r: Option<&'a [u8]>)
    ensures
        r.is_some() == prefix@.is_prefix_of(haystack@),
        r matches Some(rest) ==> haystack@ == prefix@ + rest@,
{
    if starts_with(prefix, haystack) {
        let (_, rest) = haystack.split_at(prefix.len());
        assert(haystack@ =~= prefix@ + rest@);
        Some(rest)
    } else {
        None
    }
}

/// What is left of `haystack` before `suffix`, if it ends with `suffix`.
pub fn strip_suffix<'a>(suffix: &[u8], haystack: &'a [u8]) -> (r: Option<&'a [u8]>)
    ensures
        r.is_some() == suffix@.is_suffix_of(haystack@),
        r matches Some(rest) ==> haystack@ == rest@ + suffix@,
{
    if ends_with(suffix, haystack) {
        let (rest, _) = haystack.split_at(haystack.len() - suffix.len());
        assert(haystack@ =~= rest@ + suffix@);
        Some(rest)
    } else {
        None
    }
}

/// Add one to the integer behind `x`.
pub fn inc(x: &mut usize) -> (r: &mut usize)
    requires
        *old(x) < usize::MAX,
    ensures
        *r == *old(x) + 1,
        *final(x) == *final(r),
{
    *x += 1;
    x
}

/// The first position at which `needle` occurs in `haystack`, if it occurs at all.
pub fn find(needle: &[u8], haystack: &[u8]) -> (r: Option<usize>)
    ensures
        match r {
            Some(at) => first_occurrence(needle@, haystack@, at as int),
            None => forall|at: int| !occurs_at(needle@, haystack@, at),
        },
{
    if needle.len() > haystack.len() {
        return None;
    }
    let last = haystack.len() - needle.len();
    let mut index: usize = 0;
    while index <= last
        invariant
            index <= last + 1,
            last == haystack@.len() - needle@.len(),
            haystack@.len() <= usize::MAX,
            forall|earlier: int| 0 <= earlier < index ==> !occurs_at(needle@, haystack@, earlier),
        decreases last + 1 - index,
    {
        let (_, rest) = haystack.split_at(index);
        let (head, _) = rest.split_at(needle.len());
        assert(head@ =~= haystack@.subrange(index as int, index + needle@.len()));
        if is_eq(head, needle) {
            return Some(index);
        }
        assert(needle@.len() > 0) by {
            if needle@.len() == 0 {
                assert(head@ =~= needle@);
            }
        }
        index += 1;
    }
    None
}

/// What lies in `haystack` before and behind the first occurrence of `needle`, if it
/// occurs at all.
pub fn split<'a>(needle: &[u8], haystack: &'a [u8]) -> (r: Option<(&'a [u8], &'a [u8])>)
    ensures
        match r {
            Some((before, after)) => {
                &&& first_occurrence(needle@, haystack@, before@.len() as int)
                &&& haystack@ == before@ + needle@ + after@
            },
            None => forall|at: int| !occurs_at(needle@, haystack@, at),
        },
{
    match find(needle, haystack) {
        Some(start) => {
            let (before, rest) = haystack.split_at(start);
            let (found, after) = rest.split_at(needle.len());
            assert(found@ =~= haystack@.subrange(start as int, start + needle@.len()));
            assert(haystack@ =~= before@ + needle@ + after@);
            Some((before, after))
        },
        None => None,
    }
}

} // verus!
