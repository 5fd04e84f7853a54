use super::no_uninit::{lemma_seq_bytes_push, raw_byte, raw_bytes, seq_bytes, NoUninit};
use super::zeroable::Zeroable;
use crate::simd::lane::{fits, Lane, Scalar};
use vstd::prelude::*;

verus! {

/// Marker trait for plain old data: types without uninitialized bytes for which every
/// bit pattern is a value, so that a value can be read from any `size()` bytes.
pub trait Pod: NoUninit + Zeroable {
    /// The value whose bytes are the `size()` bytes of `bytes` that start at `at`.
    fn read_bytes(bytes: &[u8], at: usize) -> (r: Self)
        requires
            at + Self::size() <= bytes@.len(),
        ensures
            r.bytes() == bytes@.subrange(at as int, at + Self::size()),
    ;
}

/// The signed integer of `8 * n` bits whose bytes are the `n` bytes of `bytes` that start
/// at `at`, the least significant one first.
pub fn read_raw(bytes: &[u8], at: usize, n: usize) -> (r: i64)
    requires
        n == 1 || n == 2 || n == 4 || n == 8,
        at + n <= bytes@.len(),
    ensures
        fits(r as int, 8 * n as nat),
        raw_bytes(r as int, n as nat) == bytes@.subrange(at as int, at + n),
{
    if n == 1 {
        let b0 = bytes[at];
        let r = (b0 as i8) as i64;
        assert(-0x80 <= r < 0x80 && ((r >> 0u64) & 0xff) as u8 == b0) by (bit_vector)
            requires
                r == (b0 as i8) as i64,
        ;
        assert(raw_byte(r, 0) == b0);
        assert(raw_bytes(r as int, 1) =~= bytes@.subrange(at as int, at + 1));
        r
    } else if n == 2 {
        let b0 = bytes[at];
        let b1 = bytes[at + 1];
        let r = ((b0 as u16 | (b1 as u16) << 8) as i16) as i64;
        assert(-0x8000 <= r < 0x8000 && ((r >> 0u64) & 0xff) as u8 == b0 && ((r >> 8u64) & 0xff)
            as u8 == b1) by (bit_vector)
            requires
                r == ((b0 as u16 | (b1 as u16) << 8) as i16) as i64,
        ;
        assert(raw_byte(r, 0) == b0 && raw_byte(r, 1) == b1);
        assert(raw_bytes(r as int, 2) =~= bytes@.subrange(at as int, at + 2));
        r
    } else if n == 4 {
        let b0 = bytes[at];
        let b1 = bytes[at + 1];
        let b2 = bytes[at + 2];
        let b3 = bytes[at + 3];
        let r = ((b0 as u32 | (b1 as u32) << 8 | (b2 as u32) << 16 | (b3 as u32) << 24) as i32)
            as i64;
        assert(-0x8000_0000 <= r < 0x8000_0000 && ((r >> 0u64) & 0xff) as u8 == b0 && ((r >> 8u64)
            & 0xff) as u8 == b1 && ((r >> 16u64) & 0xff) as u8 == b2 && ((r >> 24u64) & 0xff) as u8
            == b3) by (bit_vector)
            requires
                r == ((b0 as u32 | (b1 as u32) << 8 | (b2 as u32) << 16 | (b3 as u32) << 24)
                    as i32) as i64,
        ;
        assert(raw_byte(r, 0) == b0 && raw_byte(r, 1) == b1 && raw_byte(r, 2) == b2 && raw_byte(
            r,
            3,
        ) == b3);
        assert(raw_bytes(r as int, 4) =~= bytes@.subrange(at as int, at + 4));
        r
    } else {
        let b0 = bytes[at];
        let b1 = bytes[at + 1];
        let b2 = bytes[at + 2];
        let b3 = bytes[at + 3];
        let b4 = bytes[at + 4];
        let b5 = bytes[at + 5];
        let b6 = bytes[at + 6];
        let b7 = bytes[at + 7];
        let r = (b0 as u64 | (b1 as u64) << 8 | (b2 as u64) << 16 | (b3 as u64) << 24 | (b4 as u64)
            << 32 | (b5 as u64) << 40 | (b6 as u64) << 48 | (b7 as u64) << 56) as i64;
        assert(((r >> 0u64) & 0xff) as u8 == b0 && ((r >> 8u64) & 0xff) as u8 == b1 && ((r >> 16u64)
            & 0xff) as u8 == b2 && ((r >> 24u64) & 0xff) as u8 == b3 && ((r >> 32u64) & 0xff) as u8
            == b4 && ((r >> 40u64) & 0xff) as u8 == b5 && ((r >> 48u64) & 0xff) as u8 == b6 && ((r
            >> 56u64) & 0xff) as u8 == b7) by (bit_vector)
            requires
                r == (b0 as u64 | (b1 as u64) << 8 | (b2 as u64) << 16 | (b3 as u64) << 24 | (
                b4 as u64) << 32 | (b5 as u64) << 40 | (b6 as u64) << 48 | (b7 as u64) << 56)
                    as i64,
        ;
        assert(raw_byte(r, 0) == b0 && raw_byte(r, 1) == b1 && raw_byte(r, 2) == b2 && raw_byte(
            r,
            3,
        ) == b3 && raw_byte(r, 4) == b4 && raw_byte(r, 5) == b5 && raw_byte(r, 6) == b6
            && raw_byte(r, 7) == b7);
        assert(raw_bytes(r as int, 8) =~= bytes@.subrange(at as int, at + 8));
        r
    }
}

/// The values whose bytes are, one value after the other, the bytes of `bytes` that start
/// at `at`, appended to `out`.
pub fn read_seq_bytes<B: Pod>(bytes: &[u8], at: usize, count: usize, out: &mut Vec<B>)
    requires
        at + count * B::size() <= bytes@.len(),
    ensures
        final(out)@.len() == old(out)@.len() + count,
        final(out)@.take(old(out)@.len() as int) == old(out)@,
        seq_bytes(final(out)@.skip(old(out)@.len() as int)) == bytes@.subrange(
            at as int,
            at + count * B::size(),
        ),
{
    let ghost start = out@.len() as int;
    let len = bytes.len();
    let mut i: usize = 0;
    let mut pos: usize = at;
    assert(out@.skip(start) =~= Seq::<B>::empty());
    while i < count
        invariant
            i <= count,
            start == old(out)@.len(),
            at <= pos,
            pos == at + i * B::size(),
            at + count * B::size() <= bytes@.len() == len,
            out@.len() == start + i,
            out@.take(start) == old(out)@,
            seq_bytes(out@.skip(start)) == bytes@.subrange(at as int, pos as int),
        decreases count - i,
    {
        assert(pos + B::size() <= at + count * B::size() && pos + B::size() == at + (i + 1)
            * B::size()) by (nonlinear_arith)
            requires
                pos == at + i * B::size(),
                i < count,
        ;
        let value = B::read_bytes(bytes, pos);
        let ghost before = out@;
        out.push(value);
        proof {
            B::bytes_laws(value, value);
            lemma_seq_bytes_push(before.skip(start), value);
            assert(out@.skip(start) =~= before.skip(start).push(value));
            assert(bytes@.subrange(at as int, pos as int) + bytes@.subrange(
                pos as int,
                pos + B::size(),
            ) =~= bytes@.subrange(at as int, pos + B::size()));
            assert(out@.take(start) =~= before.take(start));
        }
        i += 1;
        pos += B::size_of();
    }
}

impl<T: Scalar> Pod for T {
    fn read_bytes(bytes: &[u8], at: usize) -> (r: Self) {
        proof {
            T::lane_laws(T::zero());
        }
        let raw = read_raw(bytes, at, (T::bits() / 8) as usize);
        proof {
            T::every_raw(raw as int);
        }
        T::from_raw(raw)
    }
}

impl<T: Zeroable + Copy, const N: usize> Zeroable for [T; N] {
    open spec fn zero() -> Self {
        [T::zero();N]
    }

    fn zeroed() -> (r: Self) {
        let r = [T::zeroed();N];
        assert(r =~= [T::zero();N]);
        r
    }
}

impl<T: Pod + Copy, const N: usize> Pod for [T; N] {
    fn read_bytes(bytes: &[u8], at: usize) -> (r: Self) {
        let mut r = [T::zeroed();N];
        let len = bytes.len();
        let mut i: usize = 0;
        let mut pos: usize = at;
        while i < N
            invariant
                i <= N,
                at <= pos,
                pos == at + i * T::size(),
                at + N * T::size() <= bytes@.len() == len,
                seq_bytes(r@.take(i as int)) == bytes@.subrange(at as int, pos as int),
            decreases N - i,
        {
            assert(pos + T::size() <= at + N * T::size() && pos + T::size() == at + (i + 1)
                * T::size()) by (nonlinear_arith)
                requires
                    pos == at + i * T::size(),
                    i < N,
            ;
            let value = T::read_bytes(bytes, pos);
            let ghost before = r@;
            r[i] = value;
            proof {
                T::bytes_laws(value, value);
                lemma_seq_bytes_push(before.take(i as int), value);
                assert(r@.take(i + 1) =~= before.take(i as int).push(value));
                assert(bytes@.subrange(at as int, pos as int) + bytes@.subrange(
                    pos as int,
                    pos + T::size(),
                ) =~= bytes@.subrange(at as int, pos + T::size()));
            }
            i += 1;
            pos += T::size_of();
        }
        assert(r@.take(N as int) =~= r@);
        r
    }
}

} // verus!
