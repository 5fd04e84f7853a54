use crate::muck::forget::Forget;
use crate::muck::no_uninit::{
    lemma_seq_bytes_injective, lemma_seq_bytes_len, seq_bytes, write_seq_bytes, NoUninit,
};
use crate::muck::pod::Pod;
use crate::muck::zeroable::Zeroable;
use crate::sealed::Sealed;
use crate::simd::lane::Lane;
use crate::simd::mask::{is_mask_repr, Mask, MaskValue};
use vstd::arithmetic::div_mod::lemma_fundamental_div_mod_converse;
use vstd::prelude::*;
use vstd::std_specs::cmp::PartialEqSpecImpl;

verus! {

/// A vector that stores `N` lanes of type `T`.
///
/// # Memory Layout
///
/// A `Vector<T, N>` is a `[T; N]` with stricter alignment requirements.
///
/// * Both store `N` contiguous `T`s.
/// * Both have no uninit/padding bytes.
/// * A `Vector<T, N>` **always** has an alignment equal to its size, regardless of
///   platform.
#[derive(Debug, Clone, Copy, Hash)]
pub struct Vector<T, const N: usize> {
    pub lanes: [T; N],
}

/// The lane counts that vectors are made with: the powers of two up to 64.
pub open spec fn is_lane_count(n: nat) -> bool {
    n == 1 || n == 2 || n == 4 || n == 8 || n == 16 || n == 32 || n == 64
}

impl<T, const N: usize> Vector<T, N> {
    /// The length of this vector type when treated as an array
    /// of it's elements.
    pub fn len() -> (r: usize)
        ensures
            r == N,
    {
        N
    }

    /// The lanes of this vector, in order.
    pub open spec fn view(&self) -> Seq<T> {
        self.lanes@
    }

    /// The vector with the given lanes.
    pub open spec fn spec_from_array(arr: [T; N]) -> Self {
        Vector { lanes: arr }
    }

    /// The lanes of this vector as an array.
    pub open spec fn spec_to_array(self) -> [T; N] {
        self.lanes
    }

    /// Create a vector from an array of elements.
    #[verifier::when_used_as_spec(spec_from_array)]
    pub fn from_array(arr: [T; N]) -> (r: Self)
        ensures
            r == Self::spec_from_array(arr),
            r@ == arr@,
    {
        Vector { lanes: arr }
    }

    /// Create an array of elements from a vector.
    #[verifier::when_used_as_spec(spec_to_array)]
    pub fn to_array(self) -> (r: [T; N])
        ensures
            r == self.spec_to_array(),
            r@ == self@,
    {
        self.lanes
    }

    /// Get a reference to an array of elements from a vector.
    pub fn as_array(&self) -> (r: &[T; N])
        ensures
            *r == self.spec_to_array(),
    {
        &self.lanes
    }

    /// Get a mutable reference to an array of elements from a vector.
    pub fn as_array_mut(&mut self) -> (r: &mut [T; N])
        ensures
            *r == old(self).spec_to_array(),
            *final(self) == Self::spec_from_array(*final(r)),
    {
        &mut self.lanes
    }

    /// Get a slice of elements from a vector.
    pub fn as_slice(&self) -> (r: &[T])
        ensures
            r@ == self@,
    {
        self.lanes.as_slice()
    }

    /// Get a mutable slice of elements from a vector.
    pub fn as_slice_mut(&mut self) -> (r: &mut [T])
        ensures
            r@ == old(self)@,
            final(self)@ == final(r)@,
    {
        &mut self.lanes
    }

    /// A vector is nothing but its lanes: vectors with the same lanes are the same
    /// vector.
    pub proof fn lemma_view_injective(a: Self, b: Self)
        requires
            a@ == b@,
        ensures
            a == b,
    {
        assert(a.lanes =~= b.lanes);
    }

    /// Through an array and back, a vector is unchanged, and so is an array through a
    /// vector and back.
    pub proof fn lemma_array_round_trip(v: Self, a: [T; N])
        ensures
            Self::from_array(v.to_array()) == v,
            Self::from_array(a).to_array() == a,
    {
    }
}

impl<T: Copy, const N: usize> Vector<T, N> {
    /// The lane at position `index`.
    pub fn lane(&self, index: usize) -> (r: T)
        requires
            index < N,
        ensures
            r == self@[index as int],
    {
        self.lanes[index]
    }

    /// Set the lane at position `index`.
    pub fn set_lane(&mut self, index: usize, lane: T)
        requires
            index < N,
        ensures
            final(self)@ == old(self)@.update(index as int, lane),
    {
        self.lanes[index] = lane;
    }
}

impl<T: Lane, const N: usize> Vector<T, N> {
    /// Whether every lane of this vector, read as a signed integer, is exactly 0 or
    /// exactly -1: all bits clear, or all bits set.
    pub open spec fn spec_is_mask(&self) -> bool {
        forall|i: int| 0 <= i < N ==> is_mask_repr((#[trigger] self@[i]).raw())
    }

    /// Returns whether this vector has a valid bit pattern for a mask vector.
    ///
    /// A `true` return value indicates that this vector can be converted into the mask
    /// vector of its lanes.
    #[verifier::when_used_as_spec(spec_is_mask)]
    pub fn is_mask(&self) -> (r: bool)
        ensures
            r == self.spec_is_mask(),
    {
        let mut all_valid = true;
        let mut i: usize = 0;
        while i < N
            invariant
                i <= N,
                all_valid == (forall|j: int| 0 <= j < i ==> is_mask_repr((#[trigger] self@[j]).raw())),
            decreases N - i,
        {
            let raw = self.lanes[i].to_raw();
            let valid = raw == 0 || raw == -1;
            assert(valid == is_mask_repr(self@[i as int].raw()));
            all_valid = all_valid && valid;
            i += 1;
        }
        all_valid
    }
}

impl<T: Lane, const N: usize> Vector<T, N> where T::Mask: Mask {
    /// Whether `mask` has, lane for lane, the bits of this vector.
    pub open spec fn same_bits(&self, mask: Vector<T::Mask, N>) -> bool {
        forall|i: int| 0 <= i < N ==> (#[trigger] mask@[i]).raw() == self@[i].raw()
    }

    /// A mask vector with the bits of a vector has the bytes of the vector.
    pub proof fn lemma_same_bits_same_bytes(self, mask: Vector<T::Mask, N>)
        requires
            self.same_bits(mask),
        ensures
            mask.bytes() == self.bytes(),
    {
        T::lane_laws(T::zero());
        T::Mask::lane_laws(T::Mask::zero());
        lemma_same_raws_same_bytes(self@, mask@);
    }

    /// Get the mask vector of this vector's lanes from `self` if it has a valid bit
    /// pattern for one.
    pub fn try_to_mask(self) -> (r: Option<Vector<T::Mask, N>>)
        ensures
            r.is_some() == self.is_mask(),
            r matches Some(mask) ==> self.same_bits(mask) && mask.bytes() == self.bytes(),
    {
        if self.is_mask() {
            Some(self.to_mask_unchecked())
        } else {
            None
        }
    }

    /// Get the mask vector of this vector's lanes from `self`, which must have a valid
    /// bit pattern for one.
    pub fn to_mask(self) -> (r: Vector<T::Mask, N>)
        requires
            self.is_mask(),
        ensures
            self.same_bits(r),
            r.bytes() == self.bytes(),
    {
        match self.try_to_mask() {
            Some(mask) => mask,
            None => vstd::pervasive::unreached(),
        }
    }

    /// Get the mask vector of this vector's lanes from `self`, without checks: the caller
    /// answers for `self` having a valid bit pattern for one.
    pub fn to_mask_unchecked(self) -> (r: Vector<T::Mask, N>)
        requires
            self.is_mask(),
        ensures
            self.same_bits(r),
            r.bytes() == self.bytes(),
    {
        let mut lanes: [T::Mask; N] = [T::Mask::zeroed(); N];
        let mut i: usize = 0;
        while i < N
            invariant
                i <= N,
                self.is_mask(),
                forall|j: int| 0 <= j < i ==> (#[trigger] lanes@[j]).raw() == self@[j].raw(),
            decreases N - i,
        {
            let raw = self.lanes[i].to_raw();
            proof {
                assert(is_mask_repr(self@[i as int].raw()));
                T::Mask::mask_laws(T::Mask::zero());
            }
            lanes[i] = T::Mask::from_raw(raw);
            i += 1;
        }
        let mask = Vector { lanes };
        proof {
            self.lemma_same_bits_same_bytes(mask);
        }
        mask
    }

    /// A vector and the mask vector of its lanes have the same layout: the size of
    /// either is the number of lanes times the size of a lane, and the alignment of
    /// either is its size.
    pub proof fn lemma_layout()
        ensures
            Self::size() == N * (T::width() / 8),
            Self::align() == Self::size(),
            Vector::<T::Mask, N>::size() == Self::size(),
            Vector::<T::Mask, N>::align() == Self::align(),
    {
        T::lane_laws(T::zero());
        T::Mask::lane_laws(T::Mask::zero());
    }
}

/// Lanes of two types of the same width that have, one for one, the same bits, have the
/// same bytes.
pub proof fn lemma_same_raws_same_bytes<T: Lane, M: Lane>(lanes: Seq<T>, others: Seq<M>)
    requires
        T::width() == M::width(),
        lanes.len() == others.len(),
        forall|i: int| 0 <= i < lanes.len() ==> (#[trigger] others[i]).raw() == lanes[i].raw(),
    ensures
        seq_bytes(others) == seq_bytes(lanes),
    decreases lanes.len(),
{
    if lanes.len() > 0 {
        lemma_same_raws_same_bytes(lanes.drop_last(), others.drop_last());
        assert(others.last().raw() == lanes.last().raw());
    }
}

impl<T: Lane, const N: usize> Vector<T, N> {
    /// The amount of lanes within this vector type.
    pub fn lanes() -> (r: u32)
        requires
            is_lane_count(N as nat),
        ensures
            r == N,
    {
        N as u32
    }

    /// The amount of bits that this vector type occupies.
    ///
    /// This is **not** the amount of bits per lane.
    pub fn bits() -> (r: u32)
        requires
            is_lane_count(N as nat),
        ensures
            r == N * T::width(),
    {
        proof {
            T::lane_laws(T::zero());
        }
        (N as u32) * T::bits()
    }

    /// The amount of bits that each lane occupies.
    ///
    /// This is **not** the total amount of bits
    /// occupied by this vector type.
    pub fn lane_bits() -> (r: u32)
        ensures
            r == T::width(),
    {
        T::bits()
    }

    /// A vector is double the size of the vector of half its length.
    pub proof fn lemma_half_layout<const H: usize>()
        requires
            N == 2 * H,
        ensures
            Self::size() == 2 * Vector::<T, H>::size(),
    {
        assert((2 * H) * T::size() == 2 * (H * T::size())) by (nonlinear_arith);
    }

    /// Create a new vector by reading the first `N` elements of a slice of scalars,
    /// which must have as many.
    pub fn from_slice(slice: &[T]) -> (r: Self)
        requires
            slice@.len() >= N,
        ensures
            r@ == slice@.take(N as int),
    {
        let mut lanes = [T::zeroed();N];
        let mut i: usize = 0;
        while i < N
            invariant
                i <= N <= slice@.len(),
                forall|j: int| 0 <= j < i ==> lanes@[j] == slice@[j],
            decreases N - i,
        {
            lanes[i] = slice[i];
            i += 1;
        }
        assert(lanes@ =~= slice@.take(N as int));
        Vector { lanes }
    }

    /// Create a new vector by joining two halves of a vector.
    pub fn from_halves<const H: usize>(a: Vector<T, H>, b: Vector<T, H>) -> (r: Self)
        requires
            N == 2 * H,
        ensures
            r@ == a@ + b@,
    {
        let mut lanes = [T::zeroed();N];
        let mut i: usize = 0;
        while i < H
            invariant
                i <= H,
                N == 2 * H,
                forall|j: int| 0 <= j < i ==> lanes@[j] == a@[j],
                forall|j: int| 0 <= j < i ==> lanes@[H + j] == b@[j],
            decreases H - i,
        {
            lanes[i] = a.lanes[i];
            lanes[H + i] = b.lanes[i];
            i += 1;
        }
        assert(lanes@ =~= a@ + b@);
        Vector { lanes }
    }

    /// Split this vector into an array of halves.
    pub fn to_halves<const H: usize>(self) -> (r: [Vector<T, H>; 2])
        requires
            N == 2 * H,
        ensures
            r@[0]@ == self@.take(H as int),
            r@[1]@ == self@.skip(H as int),
    {
        let (a, b) = self.split::<H>();
        [a, b]
    }

    /// Split this vector into two halves.
    pub fn split<const H: usize>(self) -> (r: (Vector<T, H>, Vector<T, H>))
        requires
            N == 2 * H,
        ensures
            r.0@ == self@.take(H as int),
            r.1@ == self@.skip(H as int),
    {
        let mut a = [T::zeroed();H];
        let mut b = [T::zeroed();H];
        let mut i: usize = 0;
        while i < H
            invariant
                i <= H,
                N == 2 * H,
                forall|j: int| 0 <= j < i ==> a@[j] == self@[j],
                forall|j: int| 0 <= j < i ==> b@[j] == self@[H + j],
            decreases H - i,
        {
            a[i] = self.lanes[i];
            b[i] = self.lanes[H + i];
            i += 1;
        }
        assert(a@ =~= self@.take(H as int));
        assert(b@ =~= self@.skip(H as int));
        (Vector { lanes: a }, Vector { lanes: b })
    }

    /// The lanes of a sequence of vectors: those of each vector, one vector after the
    /// other, with no gaps.
    pub open spec fn flattened(vecs: Seq<Self>) -> Seq<T> {
        Seq::new(vecs.len() * N as nat, |k: int| vecs[k / N as int]@[k % N as int])
    }

    /// The arrays of elements of a slice of vectors.
    pub fn as_arrays(vecs: &[Self]) -> (r: Vec<[T; N]>)
        ensures
            r@.len() == vecs@.len(),
            forall|i: int| 0 <= i < vecs@.len() ==> (#[trigger] r@[i]) == vecs@[i].to_array(),
    {
        let mut out: Vec<[T; N]> = Vec::new();
        let mut i: usize = 0;
        while i < vecs.len()
            invariant
                i <= vecs@.len(),
                out@.len() == i,
                forall|j: int| 0 <= j < i ==> (#[trigger] out@[j]) == vecs@[j].to_array(),
            decreases vecs@.len() - i,
        {
            out.push(vecs[i].lanes);
            i += 1;
        }
        out
    }

    /// The elements of a slice of vectors: the lanes of the first vector in order, then
    /// those of the second, and so on.
    pub fn as_flattened(vecs: &[Self]) -> (r: Vec<T>)
        ensures
            r@ == Self::flattened(vecs@),
    {
        let mut out: Vec<T> = Vec::new();
        let mut i: usize = 0;
        while i < vecs.len()
            invariant
                i <= vecs@.len(),
                out@.len() == i * N,
                forall|k: int| 0 <= k < out@.len() ==> out@[k] == vecs@[k / N as int]@[k % N as int],
            decreases vecs@.len() - i,
        {
            let mut j: usize = 0;
            while j < N
                invariant
                    i < vecs@.len(),
                    j <= N,
                    out@.len() == i * N + j,
                    forall|k: int|
                        0 <= k < out@.len() ==> out@[k] == vecs@[k / N as int]@[k % N as int],
                decreases N - j,
            {
                proof {
                    lemma_fundamental_div_mod_converse(i * N + j, N as int, i as int, j as int);
                }
                out.push(vecs[i].lanes[j]);
                j += 1;
            }
            assert((i + 1) * N == i * N + N) by (nonlinear_arith);
            i += 1;
        }
        assert(out@.len() == vecs@.len() * N);
        assert(out@ =~= Self::flattened(vecs@));
        out
    }
}

impl<T: Lane, const N: usize> PartialEq for Vector<T, N> {
    /// Whether two vectors have the same bits in every lane.
    fn eq(&self, other: &Self) -> (r: bool) {
        let mut same = true;
        let mut i: usize = 0;
        while i < N
            invariant
                i <= N,
                same == (forall|j: int| 0 <= j < i ==> (#[trigger] self@[j]).raw() == other@[j].raw()),
            decreases N - i,
        {
            let equal = self.lanes[i].to_raw() == other.lanes[i].to_raw();
            assert(equal == (self@[i as int].raw() == other@[i as int].raw()));
            same = same && equal;
            i += 1;
        }
        proof {
            if same {
                assert forall|j: int| 0 <= j < N implies self@[j] == other@[j] by {
                    assert(self@[j].raw() == other@[j].raw());
                    T::raw_injective(self@[j], other@[j]);
                }
                assert(self@ =~= other@);
                Self::lemma_view_injective(*self, *other);
            }
        }
        same
    }
}

impl<T: Lane, const N: usize> PartialEqSpecImpl for Vector<T, N> {
    open spec fn obeys_eq_spec() -> bool {
        true
    }

    open spec fn eq_spec(&self, other: &Self) -> bool {
        *self == *other
    }
}

impl<T: Lane, const N: usize> Eq for Vector<T, N> {

}

impl<T: Lane, const N: usize> Default for Vector<T, N> {
    /// The vector whose lanes are all zero.
    fn default() -> (r: Self)
        ensures
            r == Self::zero(),
    {
        Self::zeroed()
    }
}

impl<M: Mask, const N: usize> Vector<M, N> {
    /// Every vector of masks is a mask vector.
    pub proof fn lemma_masks_are_mask(self)
        ensures
            self.is_mask(),
    {
        assert forall|i: int| 0 <= i < N implies is_mask_repr((#[trigger] self@[i]).raw()) by {
            M::mask_laws(self@[i]);
        }
    }

    /// Compute the lane-wise `NOT` of this mask vector.
    pub fn not(self) -> (r: Self)
        ensures
            forall|i: int| 0 <= i < N ==> (#[trigger] r@[i]).truth() == !self@[i].truth(),
            r.is_mask(),
    {
        let mut lanes = self.lanes;
        let mut i: usize = 0;
        while i < N
            invariant
                i <= N,
                forall|j: int| 0 <= j < i ==> (#[trigger] lanes@[j]).truth() == !self@[j].truth(),
            decreases N - i,
        {
            lanes[i] = self.lanes[i].negate();
            i += 1;
        }
        let r = Vector { lanes };
        proof {
            r.lemma_masks_are_mask();
        }
        r
    }

    /// Compute the lane-wise `AND` between two mask vectors.
    pub fn and(self, other: Self) -> (r: Self)
        ensures
            forall|i: int|
                0 <= i < N ==> (#[trigger] r@[i]).truth() == (self@[i].truth() && other@[i].truth()),
            r.is_mask(),
    {
        let mut lanes = self.lanes;
        let mut i: usize = 0;
        while i < N
            invariant
                i <= N,
                forall|j: int|
                    0 <= j < i ==> (#[trigger] lanes@[j]).truth() == (self@[j].truth()
                        && other@[j].truth()),
            decreases N - i,
        {
            lanes[i] = self.lanes[i].conj(other.lanes[i]);
            i += 1;
        }
        let r = Vector { lanes };
        proof {
            r.lemma_masks_are_mask();
        }
        r
    }

    /// Compute the lane-wise `OR` between two mask vectors.
    pub fn or(self, other: Self) -> (r: Self)
        ensures
            forall|i: int|
                0 <= i < N ==> (#[trigger] r@[i]).truth() == (self@[i].truth() || other@[i].truth()),
            r.is_mask(),
    {
        let mut lanes = self.lanes;
        let mut i: usize = 0;
        while i < N
            invariant
                i <= N,
                forall|j: int|
                    0 <= j < i ==> (#[trigger] lanes@[j]).truth() == (self@[j].truth()
                        || other@[j].truth()),
            decreases N - i,
        {
            lanes[i] = self.lanes[i].disj(other.lanes[i]);
            i += 1;
        }
        let r = Vector { lanes };
        proof {
            r.lemma_masks_are_mask();
        }
        r
    }

    /// Compute the lane-wise `XOR` between two mask vectors.
    pub fn xor(self, other: Self) -> (r: Self)
        ensures
            forall|i: int|
                0 <= i < N ==> (#[trigger] r@[i]).truth() == (self@[i].truth() != other@[i].truth()),
            r.is_mask(),
    {
        let mut lanes = self.lanes;
        let mut i: usize = 0;
        while i < N
            invariant
                i <= N,
                forall|j: int|
                    0 <= j < i ==> (#[trigger] lanes@[j]).truth() == (self@[j].truth()
                        != other@[j].truth()),
            decreases N - i,
        {
            lanes[i] = self.lanes[i].exor(other.lanes[i]);
            i += 1;
        }
        let r = Vector { lanes };
        proof {
            r.lemma_masks_are_mask();
        }
        r
    }
}

impl<T: Sealed, const N: usize> Sealed for Vector<T, N> {

}

impl<T: Forget, const N: usize> Forget for Vector<T, N> {

}

impl<T: NoUninit, const N: usize> NoUninit for Vector<T, N> {
    open spec fn size() -> nat {
        (N as nat) * T::size()
    }

    open spec fn align() -> nat {
        (N as nat) * T::size()
    }

    open spec fn bytes(self) -> Seq<u8> {
        seq_bytes(self@)
    }

    proof fn bytes_laws(a: Self, b: Self) {
        lemma_seq_bytes_len(a@);
        if a.bytes() == b.bytes() {
            lemma_seq_bytes_injective(a@, b@);
            Self::lemma_view_injective(a, b);
        }
    }

    fn size_of() -> (r: usize) {
        <[T; N]>::size_of()
    }

    fn align_of() -> (r: usize) {
        <[T; N]>::size_of()
    }

    fn write_bytes(&self, out: &mut Vec<u8>) {
        write_seq_bytes(self.lanes.as_slice(), out)
    }
}

impl<T: Zeroable + Copy, const N: usize> Zeroable for Vector<T, N> {
    open spec fn zero() -> Self {
        Vector { lanes: <[T; N]>::zero() }
    }

    fn zeroed() -> (r: Self) {
        Vector { lanes: <[T; N]>::zeroed() }
    }
}

impl<T: Pod + Copy, const N: usize> Pod for Vector<T, N> {
    fn read_bytes(bytes: &[u8], at: usize) -> (r: Self) {
        Vector { lanes: <[T; N]>::read_bytes(bytes, at) }
    }
}

} // verus!
