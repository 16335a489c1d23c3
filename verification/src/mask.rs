//! Lane masks: canonical storage of truth values and the vector mask type.
use vstd::prelude::*;

use crate::kernels;
use crate::kernels::{all_valid, mask_bools, rows_view, splat_seq};
use crate::marker::MaskPrimitive;
use crate::support::{Element, MaskElement};
use crate::kernels::lemma_array_exists;
use crate::vector::Vector;


verus! {

/// Storage of `N` columns of `M` mask lanes, each of which is either all zero
/// bits (false) or all one bits (true).
#[derive(Copy, Debug)]
pub struct MaskStorage<T: MaskPrimitive, const M: usize, const N: usize> {
    lanes: [[T; M]; N],
}

impl<T: MaskPrimitive, const M: usize, const N: usize> Clone for MaskStorage<T, M, N> {
    fn clone(&self) -> (r: Self)
        ensures
            r == *self,
    {
        *self
    }
}

impl<T: MaskPrimitive, const M: usize, const N: usize> View for MaskStorage<T, M, N> {
    type V = Seq<Seq<bool>>;

    /// The truth value of every lane, column by column.
    closed spec fn view(&self) -> Seq<Seq<bool>> {
        Seq::new(N as nat, |j: int| mask_bools(self.lanes@[j]@))
    }
}

impl<T: MaskPrimitive, const M: usize, const N: usize> MaskStorage<T, M, N> {
    #[verifier::type_invariant]
    closed spec fn canonical(self) -> bool {
        forall|j: int| 0 <= j < N ==> all_valid(#[trigger] self.lanes@[j]@)
    }

    /// The view has one entry per column.
    pub proof fn lemma_view_len(s: Self)
        ensures
            s@.len() == N,
    {
    }

    /// The stored lanes.
    pub closed spec fn inner(self) -> [[T; M]; N] {
        self.lanes
    }

    /// Wraps `inner` when every lane is canonical.
    pub fn new(inner: [[T; M]; N]) -> (r: Option<Self>)
        ensures
            r is Some <==> (forall|j: int, i: int| 0 <= j < N && 0 <= i < M ==> (#[trigger] inner@[j]@[i]).valid()),
            r matches Some(s) ==> s.inner() == inner,
    {
        for j in 0..N
            invariant
                forall|p: int, i: int| 0 <= p < j && 0 <= i < M ==> (#[trigger] inner@[p]@[i]).valid(),
        {
            let column = inner[j];
            for i in 0..M
                invariant
                    0 <= j < N,
                    column == inner@[j as int],
                    forall|p: int, q: int| 0 <= p < j && 0 <= q < M ==> (#[trigger] inner@[p]@[q]).valid(),
                    forall|q: int| 0 <= q < i ==> (#[trigger] inner@[j as int]@[q]).valid(),
            {
                if !column[i].is_valid() {
                    return None;
                }
            }
        }
        Some(MaskStorage { lanes: inner })
    }

    /// The stored lanes.
    pub fn into_inner(self) -> (r: [[T; M]; N])
        ensures
            r == self.inner(),
            forall|j: int| 0 <= j < N ==> all_valid(#[trigger] r@[j]@),
            forall|j: int| 0 <= j < N ==> mask_bools(#[trigger] r@[j]@) == self@[j],
    {
        proof {
            use_type_invariant(self);
        }
        self.lanes
    }

    /// Canonical storage holding the given truth values.
    pub fn from_bool_array(array: [[bool; M]; N]) -> (r: Self)
        ensures
            r@ == rows_view(array),
    {
        let mut lanes = [[T::from_bool(false); M]; N];
        for j in 0..N
            invariant
                forall|p: int| 0 <= p < N ==> all_valid(#[trigger] lanes@[p]@),
                forall|p: int| 0 <= p < j ==> mask_bools(#[trigger] lanes@[p]@) == array@[p]@,
        {
            lanes[j] = kernels::mask_from_bools(array[j]);
        }
        let r = MaskStorage { lanes };
        assert(r@ =~= rows_view(array));
        r
    }

    /// The truth value of every lane.
    pub fn to_bool_array(self) -> (r: [[bool; M]; N])
        ensures
            rows_view(r) == self@,
    {
        let mut out = [[false; M]; N];
        for j in 0..N
            invariant
                forall|p: int| 0 <= p < j ==> (#[trigger] out@[p])@ == mask_bools(self.lanes@[p]@),
        {
            out[j] = kernels::mask_to_bools(self.lanes[j]);
        }
        assert(rows_view(out) =~= self@);
        out
    }

    /// Whether every lane is true.
    pub fn all(self) -> (r: bool)
        ensures
            r == (forall|j: int, i: int| 0 <= j < N && 0 <= i < M ==> #[trigger] self@[j][i]),
    {
        for j in 0..N
            invariant
                forall|p: int, i: int| 0 <= p < j && 0 <= i < M ==> #[trigger] self.lanes@[p]@[i].is_set(),
        {
            if !kernels::mask_all(self.lanes[j]) {
                assert(!self@[j as int][choose|i: int| 0 <= i < M && !self.lanes@[j as int]@[i].is_set()]);
                return false;
            }
        }
        assert forall|j: int, i: int| 0 <= j < N && 0 <= i < M implies #[trigger] self@[j][i] by {
            assert(self.lanes@[j]@[i].is_set());
        }
        true
    }

    /// Whether any lane is true.
    pub fn any(self) -> (r: bool)
        ensures
            r == (exists|j: int, i: int| 0 <= j < N && 0 <= i < M && #[trigger] self@[j][i]),
    {
        for j in 0..N
            invariant
                forall|p: int, i: int| 0 <= p < j && 0 <= i < M ==> !#[trigger] self.lanes@[p]@[i].is_set(),
        {
            if kernels::mask_any(self.lanes[j]) {
                let ghost i = choose|i: int| 0 <= i < M && self.lanes@[j as int]@[i].is_set();
                assert(self@[j as int][i]);
                return true;
            }
        }
        assert forall|j: int, i: int| 0 <= j < N && 0 <= i < M implies !#[trigger] self@[j][i] by {
            assert(!self.lanes@[j]@[i].is_set());
        }
        false
    }

    /// Each lane of the result comes from `true_values` where the lane of
    /// `self` is true, and from `false_values` otherwise.
    pub fn select(self, true_values: Self, false_values: Self) -> (r: Self)
        ensures
            r@ == Seq::new(N as nat, |j: int| Seq::new(M as nat, |i: int| if self@[j][i] {
                true_values@[j][i]
            } else {
                false_values@[j][i]
            })),
    {
        proof {
            use_type_invariant(self);
            use_type_invariant(true_values);
            use_type_invariant(false_values);
        }
        let mut lanes = false_values.lanes;
        for j in 0..N
            invariant
                forall|p: int| 0 <= p < N ==> all_valid(#[trigger] true_values.lanes@[p]@),
                forall|p: int| 0 <= p < N ==> all_valid(#[trigger] false_values.lanes@[p]@),
                forall|p: int| 0 <= p < N ==> all_valid(#[trigger] lanes@[p]@),
                forall|p: int| 0 <= p < j ==> (#[trigger] lanes@[p])@ == kernels::select_lanes(self.lanes@[p]@, true_values.lanes@[p]@, false_values.lanes@[p]@),
        {
            let column = kernels::select(self.lanes[j], true_values.lanes[j], false_values.lanes[j]);
            assert(all_valid(column@)) by {
                assert forall|i: int| 0 <= i < M implies (#[trigger] column@[i]).valid() by {
                    assert(true_values.lanes@[j as int]@[i].valid());
                    assert(false_values.lanes@[j as int]@[i].valid());
                }
            }
            lanes[j] = column;
        }
        let r = MaskStorage { lanes };
        assert forall|j: int| 0 <= j < N implies #[trigger] r@[j] =~= Seq::new(M as nat, |i: int| if self@[j][i] {
            true_values@[j][i]
        } else {
            false_values@[j][i]
        }) by {
        }
        assert(r@ =~= Seq::new(N as nat, |j: int| Seq::new(M as nat, |i: int| if self@[j][i] {
            true_values@[j][i]
        } else {
            false_values@[j][i]
        })));
        r
    }

    /// Splits the storage into its columns.
    pub fn unpack(self) -> (r: [MaskStorage<T, M, 1>; N])
        ensures
            forall|j: int| 0 <= j < N ==> (#[trigger] r@[j])@ == seq![self@[j]],
    {
        proof {
            use_type_invariant(self);
        }
        let mut out = [MaskStorage { lanes: [kernels::mask_from_bools([false; M])] }; N];
        for j in 0..N
            invariant
                forall|p: int| 0 <= p < N ==> all_valid(#[trigger] self.lanes@[p]@),
                forall|p: int| 0 <= p < j ==> (#[trigger] out@[p])@ == seq![self@[p]],
        {
            let part = MaskStorage { lanes: [self.lanes[j]] };
            assert(part@ =~= seq![self@[j as int]]);
            out[j] = part;
        }
        out
    }

    /// Joins columns into one storage.
    pub fn pack(parts: [MaskStorage<T, M, 1>; N]) -> (r: Self)
        ensures
            forall|j: int| 0 <= j < N ==> #[trigger] r@[j] == parts@[j]@[0],
    {
        let mut lanes = [kernels::mask_from_bools([false; M]); N];
        for j in 0..N
            invariant
                forall|p: int| 0 <= p < N ==> all_valid(#[trigger] lanes@[p]@),
                forall|p: int| 0 <= p < j ==> mask_bools(#[trigger] lanes@[p]@) == parts@[p]@[0],
        {
            let inner = parts[j].into_inner();
            lanes[j] = inner[0];
        }
        MaskStorage { lanes }
    }

    /// Lane-wise logical negation.
    pub fn not(self) -> (r: Self)
        ensures
            r@ == Seq::new(N as nat, |j: int| Seq::new(M as nat, |i: int| !self@[j][i])),
    {
        proof {
            use_type_invariant(self);
        }
        let mut lanes = self.lanes;
        for j in 0..N
            invariant
                forall|p: int| 0 <= p < N ==> all_valid(#[trigger] self.lanes@[p]@),
                forall|p: int| 0 <= p < N ==> all_valid(#[trigger] lanes@[p]@),
                forall|p: int| 0 <= p < j ==> mask_bools(#[trigger] lanes@[p]@) == Seq::new(M as nat, |i: int| !self.lanes@[p]@[i].is_set()),
        {
            lanes[j] = kernels::mask_not(self.lanes[j]);
        }
        let r = MaskStorage { lanes };
        assert forall|j: int| 0 <= j < N implies #[trigger] r@[j] =~= Seq::new(M as nat, |i: int| !self@[j][i]) by {
        }
        assert(r@ =~= Seq::new(N as nat, |j: int| Seq::new(M as nat, |i: int| !self@[j][i])));
        r
    }

    /// Lane-wise logical conjunction.
    pub fn bitand(self, rhs: Self) -> (r: Self)
        ensures
            r@ == Seq::new(N as nat, |j: int| Seq::new(M as nat, |i: int| self@[j][i] && rhs@[j][i])),
    {
        proof {
            use_type_invariant(self);
            use_type_invariant(rhs);
        }
        let mut lanes = self.lanes;
        for j in 0..N
            invariant
                forall|p: int| 0 <= p < N ==> all_valid(#[trigger] self.lanes@[p]@),
                forall|p: int| 0 <= p < N ==> all_valid(#[trigger] rhs.lanes@[p]@),
                forall|p: int| 0 <= p < N ==> all_valid(#[trigger] lanes@[p]@),
                forall|p: int| 0 <= p < j ==> mask_bools(#[trigger] lanes@[p]@) == Seq::new(M as nat, |i: int| self.lanes@[p]@[i].is_set() && rhs.lanes@[p]@[i].is_set()),
        {
            lanes[j] = kernels::mask_and(self.lanes[j], rhs.lanes[j]);
        }
        let r = MaskStorage { lanes };
        assert forall|j: int| 0 <= j < N implies #[trigger] r@[j] =~= Seq::new(M as nat, |i: int| self@[j][i] && rhs@[j][i]) by {
        }
        assert(r@ =~= Seq::new(N as nat, |j: int| Seq::new(M as nat, |i: int| self@[j][i] && rhs@[j][i])));
        r
    }

    /// Lane-wise logical disjunction.
    pub fn bitor(self, rhs: Self) -> (r: Self)
        ensures
            r@ == Seq::new(N as nat, |j: int| Seq::new(M as nat, |i: int| self@[j][i] || rhs@[j][i])),
    {
        proof {
            use_type_invariant(self);
            use_type_invariant(rhs);
        }
        let mut lanes = self.lanes;
        for j in 0..N
            invariant
                forall|p: int| 0 <= p < N ==> all_valid(#[trigger] self.lanes@[p]@),
                forall|p: int| 0 <= p < N ==> all_valid(#[trigger] rhs.lanes@[p]@),
                forall|p: int| 0 <= p < N ==> all_valid(#[trigger] lanes@[p]@),
                forall|p: int| 0 <= p < j ==> mask_bools(#[trigger] lanes@[p]@) == Seq::new(M as nat, |i: int| self.lanes@[p]@[i].is_set() || rhs.lanes@[p]@[i].is_set()),
        {
            lanes[j] = kernels::mask_or(self.lanes[j], rhs.lanes[j]);
        }
        let r = MaskStorage { lanes };
        assert forall|j: int| 0 <= j < N implies #[trigger] r@[j] =~= Seq::new(M as nat, |i: int| self@[j][i] || rhs@[j][i]) by {
        }
        assert(r@ =~= Seq::new(N as nat, |j: int| Seq::new(M as nat, |i: int| self@[j][i] || rhs@[j][i])));
        r
    }

    /// Lane-wise exclusive disjunction.
    pub fn bitxor(self, rhs: Self) -> (r: Self)
        ensures
            r@ == Seq::new(N as nat, |j: int| Seq::new(M as nat, |i: int| self@[j][i] != rhs@[j][i])),
    {
        proof {
            use_type_invariant(self);
            use_type_invariant(rhs);
        }
        let mut lanes = self.lanes;
        for j in 0..N
            invariant
                forall|p: int| 0 <= p < N ==> all_valid(#[trigger] self.lanes@[p]@),
                forall|p: int| 0 <= p < N ==> all_valid(#[trigger] rhs.lanes@[p]@),
                forall|p: int| 0 <= p < N ==> all_valid(#[trigger] lanes@[p]@),
                forall|p: int| 0 <= p < j ==> mask_bools(#[trigger] lanes@[p]@) == Seq::new(M as nat, |i: int| self.lanes@[p]@[i].is_set() != rhs.lanes@[p]@[i].is_set()),
        {
            lanes[j] = kernels::mask_xor(self.lanes[j], rhs.lanes[j]);
        }
        let r = MaskStorage { lanes };
        assert forall|j: int| 0 <= j < N implies #[trigger] r@[j] =~= Seq::new(M as nat, |i: int| self@[j][i] != rhs@[j][i]) by {
        }
        assert(r@ =~= Seq::new(N as nat, |j: int| Seq::new(M as nat, |i: int| self@[j][i] != rhs@[j][i])));
        r
    }
}

/// A lane mask represented by signed integer lanes.
///
/// True lanes hold all one bits and false lanes hold zero.
#[derive(Copy, Debug)]
pub struct Mask<T: MaskPrimitive, const D: usize> {
    storage: MaskStorage<T, D, 1>,
}

impl<T: MaskPrimitive, const D: usize> Clone for Mask<T, D> {
    fn clone(&self) -> (r: Self)
        ensures
            r == *self,
    {
        *self
    }
}

impl<T: MaskPrimitive, const D: usize> View for Mask<T, D> {
    type V = Seq<bool>;

    /// The truth value of every lane.
    closed spec fn view(&self) -> Seq<bool> {
        self.storage@[0]
    }
}

/// The canonical lanes holding the truth values `s`.
pub open spec fn canonical_lanes<T: MaskPrimitive>(s: Seq<bool>) -> Seq<T> {
    Seq::new(s.len(), |i: int| T::spec_from_bool(s[i]))
}

impl<T: MaskPrimitive, const D: usize> Mask<T, D> {
    /// The mask whose lanes hold the truth values `s`.
    pub closed spec fn spec_from(s: Seq<bool>) -> Self {
        Mask {
            storage: MaskStorage {
                lanes: choose|l: [[T; D]; 1]| l@[0]@ == canonical_lanes::<T>(s),
            },
        }
    }

    closed spec fn is_canonical(self) -> bool {
        all_valid(self.storage.lanes@[0]@)
    }

    proof fn lemma_spec_from(s: Seq<bool>)
        requires
            s.len() == D,
        ensures
            Self::spec_from(s)@ == s,
            Self::spec_from(s).is_canonical(),
    {
        let lanes = canonical_lanes::<T>(s);
        lemma_array_exists::<T, D>(lanes);
        let a = choose|a: [T; D]| a@ == lanes;
        lemma_array_exists::<[T; D], 1>(seq![a]);
        let l = choose|l: [[T; D]; 1]| l@ == seq![a];
        assert(l@[0]@ == lanes);
        let m = Self::spec_from(s);
        assert forall|i: int| 0 <= i < D implies (#[trigger] m.storage.lanes@[0]@[i]).valid() && m.storage.lanes@[0]@[i].is_set() == s[i] by {
            T::lemma_from_bool(s[i]);
        }
        assert(m@ =~= s);
    }

    /// The mask that `spec_from` builds holds the given truth values.
    pub proof fn lemma_spec_from_view(s: Seq<bool>)
        requires
            s.len() == D,
        ensures
            Self::spec_from(s)@ == s,
    {
        Self::lemma_spec_from(s);
    }

    /// Two canonical masks with the same truth values are equal.
    proof fn lemma_view_eq(a: Self, b: Self)
        requires
            a.is_canonical(),
            b.is_canonical(),
            a@ == b@,
        ensures
            a == b,
    {
        assert forall|i: int| 0 <= i < D implies a.storage.lanes@[0]@[i] == b.storage.lanes@[0]@[i] by {
            assert(a@ == mask_bools(a.storage.lanes@[0]@));
            assert(b@ == mask_bools(b.storage.lanes@[0]@));
            assert(a@[i] == b@[i]);
            assert(mask_bools(a.storage.lanes@[0]@)[i] == a.storage.lanes@[0]@[i].is_set());
            assert(mask_bools(b.storage.lanes@[0]@)[i] == b.storage.lanes@[0]@[i].is_set());
            T::lemma_canonical_eq(a.storage.lanes@[0]@[i], b.storage.lanes@[0]@[i]);
        }
        assert(a.storage.lanes@[0] =~= b.storage.lanes@[0]);
        assert(a.storage.lanes =~= b.storage.lanes);
    }

    /// A mask is the one that `spec_from` builds from its truth values.
    fn lemma_from_view(self) -> (r: Self)
        ensures
            r == self,
            self == Self::spec_from(self@),
    {
        proof {
            use_type_invariant(self.storage);
            Self::lemma_spec_from(self@);
            Self::lemma_view_eq(self, Self::spec_from(self@));
        }
        self
    }

    pub(crate) fn from_lanes(lanes: [T; D]) -> (r: Self)
        requires
            all_valid(lanes@),
        ensures
            r@ == mask_bools(lanes@),
    {
        let storage = MaskStorage { lanes: [lanes] };
        Mask { storage }
    }

    pub(crate) fn lanes(self) -> (r: [T; D])
        ensures
            all_valid(r@),
            mask_bools(r@) == self@,
    {
        let inner = self.storage.into_inner();
        inner[0]
    }

    /// Constructs a mask with every lane set to `value`.
    pub fn splat(value: bool) -> (r: Self)
        ensures
            r@ == splat_seq(value, D as nat),
    {
        let r = Self::from_array([value; D]);
        assert(r@ =~= splat_seq(value, D as nat));
        r
    }

    /// Constructs a mask from boolean lanes.
    pub fn from_array(array: [bool; D]) -> (r: Self)
        ensures
            r@ == array@,
    {
        Self::from_lanes(kernels::mask_from_bools(array))
    }

    /// Returns the mask lanes as a boolean array.
    pub fn to_array(self) -> (r: [bool; D])
        ensures
            r@ == self@,
    {
        kernels::mask_to_bools(self.lanes())
    }

    /// Returns `true` if every lane is true.
    pub fn all(self) -> (r: bool)
        ensures
            r == (forall|i: int| 0 <= i < D ==> #[trigger] self@[i]),
    {
        let lanes = self.lanes();
        let r = kernels::mask_all(lanes);
        assert(r == (forall|i: int| 0 <= i < D ==> #[trigger] self@[i])) by {
            if !r {
                let i = choose|i: int| 0 <= i < D && !lanes@[i].is_set();
                assert(!self@[i]);
            }
        }
        r
    }

    /// Returns `true` if any lane is true.
    pub fn any(self) -> (r: bool)
        ensures
            r == (exists|i: int| 0 <= i < D && #[trigger] self@[i]),
    {
        let lanes = self.lanes();
        let r = kernels::mask_any(lanes);
        assert(r == (exists|i: int| 0 <= i < D && #[trigger] self@[i])) by {
            if r {
                let i = choose|i: int| 0 <= i < D && lanes@[i].is_set();
                assert(self@[i]);
            }
        }
        r
    }
}

impl<T: MaskElement, const D: usize> Mask<T, D> {
    /// Converts the mask to its signed integer vector representation.
    ///
    /// True lanes contain all one bits and false lanes contain zero.
    pub fn to_vector(self) -> (r: Vector<T, D>)
        ensures
            forall|i: int| 0 <= i < D ==> (#[trigger] r@[i]).val() == (if self@[i] {
                -1int
            } else {
                0int
            }),
    {
        let lanes = self.lanes();
        let r = Vector::from_lanes(lanes);
        proof {
            assert forall|i: int| 0 <= i < D implies (#[trigger] r@[i]).val() == (if self@[i] {
                -1int
            } else {
                0int
            }) by {
                T::lemma_mask_lane(lanes@[i]);
            }
        }
        r
    }
}

impl<T: MaskPrimitive, const D: usize> Default for Mask<T, D> {
    /// The mask with every lane false.
    fn default() -> (r: Self)
        ensures
            r@ == splat_seq(false, D as nat),
    {
        Self::splat(false)
    }
}

impl<T: MaskPrimitive, const D: usize> From<[bool; D]> for Mask<T, D> {
    fn from(value: [bool; D]) -> (r: Self)
        ensures
            r@ == value@,
    {
        Self::from_array(value).lemma_from_view()
    }
}

impl<T: MaskPrimitive, const D: usize> vstd::std_specs::convert::FromSpecImpl<[bool; D]> for Mask<T, D> {
    open spec fn obeys_from_spec() -> bool {
        true
    }

    open spec fn from_spec(v: [bool; D]) -> Self {
        Self::spec_from(v@)
    }
}

impl<T: MaskPrimitive, const D: usize> core::ops::Not for Mask<T, D> {
    type Output = Self;

    /// Lane-wise logical negation.
    fn not(self) -> (r: Self)
        ensures
            r@ == Seq::new(D as nat, |i: int| !self@[i]),
    {
        let r = Mask { storage: self.storage.not() }.lemma_from_view();
        assert(r@ =~= Seq::new(D as nat, |i: int| !self@[i]));
        r
    }
}

impl<T: MaskPrimitive, const D: usize> vstd::std_specs::ops::NotSpecImpl for Mask<T, D> {
    open spec fn obeys_not_spec() -> bool {
        true
    }

    open spec fn not_req(self) -> bool {
        true
    }

    open spec fn not_spec(self) -> Self {
        Self::spec_from(Seq::new(D as nat, |i: int| !self@[i]))
    }
}

impl<T: MaskPrimitive, const D: usize> core::ops::BitAnd for Mask<T, D> {
    type Output = Self;

    /// Lane-wise logical conjunction.
    fn bitand(self, rhs: Self) -> (r: Self)
        ensures
            r@ == Seq::new(D as nat, |i: int| self@[i] && rhs@[i]),
    {
        let r = Mask { storage: self.storage.bitand(rhs.storage) }.lemma_from_view();
        assert(r@ =~= Seq::new(D as nat, |i: int| self@[i] && rhs@[i]));
        r
    }
}

impl<T: MaskPrimitive, const D: usize> vstd::std_specs::ops::BitAndSpecImpl for Mask<T, D> {
    open spec fn obeys_bitand_spec() -> bool {
        true
    }

    open spec fn bitand_req(self, rhs: Self) -> bool {
        true
    }

    open spec fn bitand_spec(self, rhs: Self) -> Self {
        Self::spec_from(Seq::new(D as nat, |i: int| self@[i] && rhs@[i]))
    }
}

impl<T: MaskPrimitive, const D: usize> core::ops::BitAndAssign for Mask<T, D> {
    fn bitand_assign(&mut self, rhs: Self)
        ensures
            final(self)@ == Seq::new(D as nat, |i: int| old(self)@[i] && rhs@[i]),
    {
        *self = core::ops::BitAnd::bitand(*self, rhs);
    }
}

impl<T: MaskPrimitive, const D: usize> core::ops::BitOr for Mask<T, D> {
    type Output = Self;

    /// Lane-wise logical disjunction.
    fn bitor(self, rhs: Self) -> (r: Self)
        ensures
            r@ == Seq::new(D as nat, |i: int| self@[i] || rhs@[i]),
    {
        let r = Mask { storage: self.storage.bitor(rhs.storage) }.lemma_from_view();
        assert(r@ =~= Seq::new(D as nat, |i: int| self@[i] || rhs@[i]));
        r
    }
}

impl<T: MaskPrimitive, const D: usize> vstd::std_specs::ops::BitOrSpecImpl for Mask<T, D> {
    open spec fn obeys_bitor_spec() -> bool {
        true
    }

    open spec fn bitor_req(self, rhs: Self) -> bool {
        true
    }

    open spec fn bitor_spec(self, rhs: Self) -> Self {
        Self::spec_from(Seq::new(D as nat, |i: int| self@[i] || rhs@[i]))
    }
}

impl<T: MaskPrimitive, const D: usize> core::ops::BitOrAssign for Mask<T, D> {
    fn bitor_assign(&mut self, rhs: Self)
        ensures
            final(self)@ == Seq::new(D as nat, |i: int| old(self)@[i] || rhs@[i]),
    {
        *self = core::ops::BitOr::bitor(*self, rhs);
    }
}

impl<T: MaskPrimitive, const D: usize> core::ops::BitXor for Mask<T, D> {
    type Output = Self;

    /// Lane-wise logical exclusive disjunction.
    fn bitxor(self, rhs: Self) -> (r: Self)
        ensures
            r@ == Seq::new(D as nat, |i: int| self@[i] != rhs@[i]),
    {
        let r = Mask { storage: self.storage.bitxor(rhs.storage) }.lemma_from_view();
        assert(r@ =~= Seq::new(D as nat, |i: int| self@[i] != rhs@[i]));
        r
    }
}

impl<T: MaskPrimitive, const D: usize> vstd::std_specs::ops::BitXorSpecImpl for Mask<T, D> {
    open spec fn obeys_bitxor_spec() -> bool {
        true
    }

    open spec fn bitxor_req(self, rhs: Self) -> bool {
        true
    }

    open spec fn bitxor_spec(self, rhs: Self) -> Self {
        Self::spec_from(Seq::new(D as nat, |i: int| self@[i] != rhs@[i]))
    }
}

impl<T: MaskPrimitive, const D: usize> core::ops::BitXorAssign for Mask<T, D> {
    fn bitxor_assign(&mut self, rhs: Self)
        ensures
            final(self)@ == Seq::new(D as nat, |i: int| old(self)@[i] != rhs@[i]),
    {
        *self = core::ops::BitXor::bitxor(*self, rhs);
    }
}

/// Selects lanes from two values according to a mask.
pub trait Select<T> {
    /// Chooses a lane from `true_values` when the corresponding mask lane is
    /// true, and from `false_values` otherwise.
    fn select(self, true_values: T, false_values: T) -> T;
}

impl<T: Element, U: MaskPrimitive, const D: usize> Select<Vector<T, D>> for Mask<U, D> {
    fn select(self, true_values: Vector<T, D>, false_values: Vector<T, D>) -> (r: Vector<T, D>)
        ensures
            forall|i: int| 0 <= i < D ==> #[trigger] r@[i] == (if self@[i] {
                true_values@[i]
            } else {
                false_values@[i]
            }),
    {
        let lanes = self.lanes();
        Vector::from_lanes(kernels::select(lanes, true_values.lanes(), false_values.lanes()))
    }
}

impl<T: MaskPrimitive, U: MaskPrimitive, const D: usize> Select<Mask<T, D>> for Mask<U, D> {
    fn select(self, true_values: Mask<T, D>, false_values: Mask<T, D>) -> (r: Mask<T, D>)
        ensures
            r@ == Seq::new(D as nat, |i: int| if self@[i] {
                true_values@[i]
            } else {
                false_values@[i]
            }),
    {
        let m = self.lanes();
        let t = true_values.lanes();
        let f = false_values.lanes();
        let s = kernels::select(m, t, f);
        assert(all_valid(s@));
        let r = Mask::from_lanes(s);
        assert(r@ =~= Seq::new(D as nat, |i: int| if self@[i] {
            true_values@[i]
        } else {
            false_values@[i]
        }));
        r
    }
}

} // verus!
