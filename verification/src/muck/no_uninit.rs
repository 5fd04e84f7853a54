use super::forget::Forget;
use crate::simd::lane::{fits, Lane};
use vstd::prelude::*;

verus! {

/// Trait for types that contain no uninitialized or padding bytes.
///
/// This means that it is always safe to get the bytes of this type: a value is nothing
/// but its `size()` bytes, which `bytes` gives in the order in which they lie in memory,
/// the least significant byte of a lane first.
///
/// It does not however mean that it is valid for any bit representation.
pub trait NoUninit: Forget + Sized {
    /// The number of bytes that a value of this type occupies.
    spec fn size() -> nat;

    /// The alignment of this type, in bytes.
    spec fn align() -> nat;

    /// The bytes of this value.
    spec fn bytes(self) -> Seq<u8>;

    /// A value has `size()` bytes, and values with the same bytes are the same value.
    proof fn bytes_laws(a: Self, b: Self)
        ensures
            a.bytes().len() == Self::size(),
            a.bytes() == b.bytes() ==> a == b,
    ;

    /// The number of bytes that a value of this type occupies.
    fn size_of() -> (r: usize)
        requires
            Self::size() <= usize::MAX,
        ensures
            r == Self::size(),
    ;

    /// The alignment of this type, in bytes.
    fn align_of() -> (r: usize)
        requires
            Self::align() <= usize::MAX,
        ensures
            r == Self::align(),
    ;

    /// Append the bytes of this value to `out`.
    fn write_bytes(&self, out: &mut Vec<u8>)
        ensures
            final(out)@ == old(out)@ + self.bytes(),
    ;
}

/// Byte `k` of a signed 64-bit integer, counted from the least significant one.
pub open spec fn raw_byte(raw: i64, k: int) -> u8 {
    ((raw >> ((8 * k) as u64)) & 0xff) as u8
}

/// The lowest `n` bytes of a signed integer, the least significant one first.
pub open spec fn raw_bytes(raw: int, n: nat) -> Seq<u8> {
    Seq::new(n, |k: int| raw_byte(raw as i64, k))
}

/// Append the lowest `n` bytes of `raw` to `out`.
pub fn write_raw(raw: i64, n: usize, out: &mut Vec<u8>)
    requires
        n <= 8,
    ensures
        final(out)@ == old(out)@ + raw_bytes(raw as int, n as nat),
{
    let mut k: usize = 0;
    while k < n
        invariant
            k <= n <= 8,
            out@ == old(out)@ + raw_bytes(raw as int, k as nat),
        decreases n - k,
    {
        let shift: u64 = 8 * (k as u64);
        let byte = ((raw >> shift) & 0xff) as u8;
        out.push(byte);
        k += 1;
        assert(out@ =~= old(out)@ + raw_bytes(raw as int, k as nat));
    }
}

impl<T: Lane> NoUninit for T {
    open spec fn size() -> nat {
        T::width() / 8
    }

    open spec fn align() -> nat {
        T::width() / 8
    }

    open spec fn bytes(self) -> Seq<u8> {
        raw_bytes(self.raw(), T::width() / 8)
    }

    proof fn bytes_laws(a: Self, b: Self) {
        T::lane_laws(a);
        T::lane_laws(b);
        T::raws_fit(a.raw());
        T::raws_fit(b.raw());
        if a.bytes() == b.bytes() {
            lemma_raw_bytes_injective(a.raw() as i64, b.raw() as i64, T::width() / 8);
            T::raw_injective(a, b);
        }
    }

    fn size_of() -> (r: usize) {
        proof {
            T::lane_laws(T::zero());
        }
        (T::bits() / 8) as usize
    }

    fn align_of() -> (r: usize) {
        proof {
            T::lane_laws(T::zero());
        }
        (T::bits() / 8) as usize
    }

    fn write_bytes(&self, out: &mut Vec<u8>) {
        proof {
            T::lane_laws(*self);
        }
        write_raw(self.to_raw(), (T::bits() / 8) as usize, out)
    }
}

/// The bytes of the zeroed lane are all zero.
pub proof fn lemma_zero_bytes<T: Lane>()
    ensures
        T::zero().bytes() == Seq::new(T::size(), |k: int| 0u8),
{
    T::lane_laws(T::zero());
    assert(((0i64 >> 0u64) & 0xff) as u8 == 0 && ((0i64 >> 8u64) & 0xff) as u8 == 0 && ((0i64
        >> 16u64) & 0xff) as u8 == 0 && ((0i64 >> 24u64) & 0xff) as u8 == 0 && ((0i64 >> 32u64)
        & 0xff) as u8 == 0 && ((0i64 >> 40u64) & 0xff) as u8 == 0 && ((0i64 >> 48u64) & 0xff) as u8
        == 0 && ((0i64 >> 56u64) & 0xff) as u8 == 0) by (bit_vector);
    assert forall|k: int| 0 <= k < T::size() implies raw_byte(0i64, k) == 0 by {
        assert(k == 0 || k == 1 || k == 2 || k == 3 || k == 4 || k == 5 || k == 6 || k == 7);
    }
    assert(T::zero().bytes() =~= Seq::new(T::size(), |k: int| 0u8));
}

/// Signed integers of `8 * n` bits with the same lowest `n` bytes are the same integer.
pub proof fn lemma_raw_bytes_injective(a: i64, b: i64, n: nat)
    requires
        n == 1 || n == 2 || n == 4 || n == 8,
        fits(a as int, 8 * n),
        fits(b as int, 8 * n),
        raw_bytes(a as int, n) == raw_bytes(b as int, n),
    ensures
        a == b,
{
    assert forall|k: int| 0 <= k < n implies raw_byte(a, k) == raw_byte(b, k) by {
        assert(raw_bytes(a as int, n)[k] == raw_byte(a as int as i64, k));
        assert(raw_bytes(b as int, n)[k] == raw_byte(b as int as i64, k));
    }
    if n == 1 {
        assert(raw_byte(a, 0) == raw_byte(b, 0));
        assert(a == b) by (bit_vector)
            requires
                -0x80 <= a < 0x80,
                -0x80 <= b < 0x80,
                ((a >> 0u64) & 0xff) as u8 == ((b >> 0u64) & 0xff) as u8,
        ;
    } else if n == 2 {
        assert(raw_byte(a, 0) == raw_byte(b, 0));
        assert(raw_byte(a, 1) == raw_byte(b, 1));
        assert(a == b) by (bit_vector)
            requires
                -0x8000 <= a < 0x8000,
                -0x8000 <= b < 0x8000,
                ((a >> 0u64) & 0xff) as u8 == ((b >> 0u64) & 0xff) as u8,
                ((a >> 8u64) & 0xff) as u8 == ((b >> 8u64) & 0xff) as u8,
        ;
    } else if n == 4 {
        assert(raw_byte(a, 0) == raw_byte(b, 0));
        assert(raw_byte(a, 1) == raw_byte(b, 1));
        assert(raw_byte(a, 2) == raw_byte(b, 2));
        assert(raw_byte(a, 3) == raw_byte(b, 3));
        assert(a == b) by (bit_vector)
            requires
                -0x8000_0000 <= a < 0x8000_0000,
                -0x8000_0000 <= b < 0x8000_0000,
                ((a >> 0u64) & 0xff) as u8 == ((b >> 0u64) & 0xff) as u8,
                ((a >> 8u64) & 0xff) as u8 == ((b >> 8u64) & 0xff) as u8,
                ((a >> 16u64) & 0xff) as u8 == ((b >> 16u64) & 0xff) as u8,
                ((a >> 24u64) & 0xff) as u8 == ((b >> 24u64) & 0xff) as u8,
        ;
    } else {
        assert(raw_byte(a, 0) == raw_byte(b, 0));
        assert(raw_byte(a, 1) == raw_byte(b, 1));
        assert(raw_byte(a, 2) == raw_byte(b, 2));
        assert(raw_byte(a, 3) == raw_byte(b, 3));
        assert(raw_byte(a, 4) == raw_byte(b, 4));
        assert(raw_byte(a, 5) == raw_byte(b, 5));
        assert(raw_byte(a, 6) == raw_byte(b, 6));
        assert(raw_byte(a, 7) == raw_byte(b, 7));
        assert(a == b) by (bit_vector)
            requires
                ((a >> 0u64) & 0xff) as u8 == ((b >> 0u64) & 0xff) as u8,
                ((a >> 8u64) & 0xff) as u8 == ((b >> 8u64) & 0xff) as u8,
                ((a >> 16u64) & 0xff) as u8 == ((b >> 16u64) & 0xff) as u8,
                ((a >> 24u64) & 0xff) as u8 == ((b >> 24u64) & 0xff) as u8,
                ((a >> 32u64) & 0xff) as u8 == ((b >> 32u64) & 0xff) as u8,
                ((a >> 40u64) & 0xff) as u8 == ((b >> 40u64) & 0xff) as u8,
                ((a >> 48u64) & 0xff) as u8 == ((b >> 48u64) & 0xff) as u8,
                ((a >> 56u64) & 0xff) as u8 == ((b >> 56u64) & 0xff) as u8,
        ;
    }
}

/// The bytes of a sequence of values: those of each value, one value after the other.
pub open spec fn seq_bytes<A: NoUninit>(values: Seq<A>) -> Seq<u8>
    decreases values.len(),
{
    if values.len() == 0 {
        Seq::empty()
    } else {
        seq_bytes(values.drop_last()) + values.last().bytes()
    }
}

/// The bytes of a sequence with one more value are those of the sequence, then those of
/// the value.
pub proof fn lemma_seq_bytes_push<A: NoUninit>(values: Seq<A>, value: A)
    ensures
        seq_bytes(values.push(value)) == seq_bytes(values) + value.bytes(),
{
    assert(values.push(value).drop_last() =~= values);
}

/// A sequence of values has as many bytes as it has values, times the size of one.
pub proof fn lemma_seq_bytes_len<A: NoUninit>(values: Seq<A>)
    ensures
        seq_bytes(values).len() == values.len() * A::size(),
    decreases values.len(),
{
    if values.len() > 0 {
        lemma_seq_bytes_len(values.drop_last());
        A::bytes_laws(values.last(), values.last());
        assert((values.len() - 1) * A::size() + A::size() == values.len() * A::size())
            by (nonlinear_arith);
    }
}

/// The bytes of the value at position `i` of a sequence lie in the bytes of the sequence
/// at `i` times the size of a value.
pub proof fn lemma_seq_bytes_at<A: NoUninit>(values: Seq<A>, i: int)
    requires
        0 <= i < values.len(),
    ensures
        0 <= i * A::size(),
        i * A::size() + A::size() <= seq_bytes(values).len(),
        seq_bytes(values).subrange(i * A::size(), i * A::size() + A::size()) == values[i].bytes(),
    decreases values.len(),
{
    let size = A::size() as int;
    let front = values.drop_last();
    lemma_seq_bytes_len(values);
    lemma_seq_bytes_len(front);
    A::bytes_laws(values.last(), values.last());
    assert(0 <= i * size && i * size + size <= values.len() * size && (i < values.len() - 1 ==> i
        * size + size <= (values.len() - 1) * size)) by (nonlinear_arith)
        requires
            0 <= i < values.len(),
            0 <= size,
    ;
    if i == values.len() - 1 {
        assert(seq_bytes(values).subrange(i * size, i * size + size) =~= values[i].bytes());
    } else {
        lemma_seq_bytes_at(front, i);
        assert(seq_bytes(values).subrange(i * size, i * size + size) =~= seq_bytes(front).subrange(
            i * size,
            i * size + size,
        ));
    }
}

/// Sequences of equally many values with the same bytes are the same sequence.
pub proof fn lemma_seq_bytes_injective<A: NoUninit>(a: Seq<A>, b: Seq<A>)
    requires
        a.len() == b.len(),
        seq_bytes(a) == seq_bytes(b),
    ensures
        a == b,
{
    assert forall|i: int| 0 <= i < a.len() implies a[i] == b[i] by {
        lemma_seq_bytes_at(a, i);
        lemma_seq_bytes_at(b, i);
        A::bytes_laws(a[i], b[i]);
    }
    assert(a =~= b);
}

/// Append the bytes of each of `values` to `out`.
pub fn write_seq_bytes<A: NoUninit>(values: &[A], out: &mut Vec<u8>)
    ensures
        final(out)@ == old(out)@ + seq_bytes(values@),
{
    let mut i: usize = 0;
    while i < values.len()
        invariant
            i <= values@.len(),
            out@ == old(out)@ + seq_bytes(values@.take(i as int)),
        decreases values@.len() - i,
    {
        values[i].write_bytes(out);
        proof {
            lemma_seq_bytes_push(values@.take(i as int), values@[i as int]);
            assert(values@.take(i as int).push(values@[i as int]) =~= values@.take(i + 1));
            assert(out@ =~= old(out)@ + seq_bytes(values@.take(i + 1)));
        }
        i += 1;
    }
    assert(values@.take(i as int) =~= values@);
}

impl<T: NoUninit, const N: usize> NoUninit for [T; N] {
    open spec fn size() -> nat {
        (N as nat) * T::size()
    }

    open spec fn align() -> nat {
        T::align()
    }

    open spec fn bytes(self) -> Seq<u8> {
        seq_bytes(self@)
    }

    proof fn bytes_laws(a: Self, b: Self) {
        lemma_seq_bytes_len(a@);
        if a.bytes() == b.bytes() {
            lemma_seq_bytes_injective(a@, b@);
            assert(a =~= b);
        }
    }

    fn size_of() -> (r: usize) {
        if N == 0 {
            0
        } else {
            assert(T::size() <= N * T::size()) by (nonlinear_arith)
                requires
                    N >= 1,
            ;
            N * T::size_of()
        }
    }

    fn align_of() -> (r: usize) {
        T::align_of()
    }

    fn write_bytes(&self, out: &mut Vec<u8>) {
        write_seq_bytes(self.as_slice(), out)
    }
}

} // verus!
