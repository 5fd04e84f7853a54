use super::no_uninit::{lemma_seq_bytes_len, seq_bytes, write_seq_bytes, NoUninit};
use super::pod::{read_seq_bytes, Pod};
use vstd::arithmetic::div_mod::{lemma_div_multiples_vanish, lemma_fundamental_div_mod};
use vstd::prelude::*;

verus! {

/// Whether a `B` can be cast from an `A`: both are of the same size.
pub open spec fn can_cast<A: NoUninit, B: NoUninit>() -> bool {
    A::size() == B::size()
}

/// Whether a `B` can be cast from an `A` in place: both are of the same size, and an `A`
/// is aligned at least as strictly as a `B`.
pub open spec fn can_cast_ref<A: NoUninit, B: NoUninit>() -> bool {
    A::size() == B::size() && A::align() >= B::align()
}

/// Whether `B`s can be cast from a slice of `A`s: neither is zero-sized, the size of an
/// `A` is a multiple of that of a `B`, and an `A` is aligned at least as strictly as a
/// `B`.
pub open spec fn can_cast_slice<A: NoUninit, B: NoUninit>() -> bool {
    &&& A::size() != 0
    &&& B::size() != 0
    &&& A::size() % B::size() == 0
    &&& A::align() >= B::align()
}

/// Reinterpret a value of type `A` as a value of type `B`: the result has the bytes of
/// `value`.
pub fn cast<A: NoUninit, B: Pod>(value: A) -> (r: B)
    requires
        can_cast::<A, B>(),
    ensures
        r.bytes() == value.bytes(),
{
    let mut bytes: Vec<u8> = Vec::new();
    value.write_bytes(&mut bytes);
    proof {
        A::bytes_laws(value, value);
        assert(bytes@ =~= value.bytes());
        assert(bytes@.subrange(0, B::size() as int) =~= bytes@);
    }
    B::read_bytes(bytes.as_slice(), 0)
}

/// Reinterpret a borrowed value of type `A` as a value of type `B`: the result has the
/// bytes of `value`.
pub fn cast_ref<A: NoUninit, B: Pod>(value: &A) -> (r: B)
    requires
        can_cast_ref::<A, B>(),
    ensures
        r.bytes() == value.bytes(),
{
    let mut bytes: Vec<u8> = Vec::new();
    value.write_bytes(&mut bytes);
    proof {
        A::bytes_laws(*value, *value);
        assert(bytes@ =~= value.bytes());
        assert(bytes@.subrange(0, B::size() as int) =~= bytes@);
    }
    B::read_bytes(bytes.as_slice(), 0)
}

/// Reinterpret a slice of `A`s as `B`s: the result has, taken together, the bytes of
/// `values`, and so `values.len() * size(A) / size(B)` values.
pub fn cast_slice<A: NoUninit, B: Pod>(values: &[A]) -> (r: Vec<B>)
    requires
        can_cast_slice::<A, B>(),
    ensures
        r@.len() == values@.len() * A::size() / B::size(),
        seq_bytes(r@) == seq_bytes(values@),
{
    let mut out: Vec<B> = Vec::new();
    if values.len() == 0 {
        assert(values@.len() * A::size() == 0) by (nonlinear_arith)
            requires
                values@.len() == 0,
        ;
        assert(0int / (B::size() as int) == 0) by (nonlinear_arith)
            requires
                B::size() != 0,
        ;
        return out;
    }
    let mut bytes: Vec<u8> = Vec::new();
    write_seq_bytes(values, &mut bytes);
    let ghost n = values@.len() as int;
    let ghost a = A::size() as int;
    let ghost b = B::size() as int;
    let ghost per = a / b;
    proof {
        lemma_seq_bytes_len(values@);
        assert(bytes@ =~= seq_bytes(values@));
        lemma_fundamental_div_mod(a, b);
        assert(a == b * per);
        assert(n * a == b * (n * per) && b <= a <= n * a) by (nonlinear_arith)
            requires
                a == b * per,
                n >= 1,
                a > 0,
                b > 0,
        ;
        lemma_div_multiples_vanish(n * per, b);
    }
    let total = bytes.len();
    let size = B::size_of();
    let count = total / size;
    assert(count == n * per);
    read_seq_bytes(bytes.as_slice(), 0, count, &mut out);
    proof {
        assert(out@.skip(0) =~= out@);
        assert(bytes@.subrange(0, 0 + count * B::size()) =~= bytes@);
    }
    out
}

/// A value cast to another type and back is the value it was.
pub proof fn lemma_cast_round_trip<A: NoUninit, B: NoUninit>(value: A, there: B, back: A)
    requires
        there.bytes() == value.bytes(),
        back.bytes() == there.bytes(),
    ensures
        back == value,
{
    A::bytes_laws(back, value);
}

} // verus!
