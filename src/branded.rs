//! A vector whose indices carry its brand, and the family that moves both across scopes.
use std::marker::PhantomData;
use vstd::prelude::*;

use crate::brand::{Brand, FreshBrand};
use crate::transfer::{lemma_transfer_round_trip, BindBrand, BoundBrand, FreeBrand};

verus! {

/// A vector tagged with brand `B`; the indices it hands out carry the same brand.
pub struct BrandedVec<T, B: Brand> {
    vec: Vec<T>,
    brand: PhantomData<B>,
}

/// A position in the `BrandedVec` of brand `B` that produced it.
pub struct BrandedIndex<B: Brand> {
    index: usize,
    brand: PhantomData<B>,
}

/// A list of positions in the `BrandedVec` of brand `B`.
pub struct BrandedIndices<B: Brand> {
    positions: Vec<usize>,
    brand: PhantomData<B>,
}

impl<B: Brand> Clone for BrandedIndex<B> {
    fn clone(&self) -> (r: Self)
        ensures
            r == *self,
    {
        *self
    }
}

impl<B: Brand> Copy for BrandedIndex<B> {}

impl<B: Brand> BrandedIndex<B> {
    /// The position this index denotes.
    pub closed spec fn pos(&self) -> usize {
        self.index
    }

    /// Returns the position this index denotes.
    pub fn get(&self) -> (r: usize)
        ensures
            r == self.pos(),
    {
        self.index
    }
}

impl<T, B: Brand> View for BrandedVec<T, B> {
    type V = Seq<T>;

    open spec fn view(&self) -> Seq<T> {
        self.inner()@
    }
}

impl<B: Brand> View for BrandedIndices<B> {
    type V = Seq<usize>;

    open spec fn view(&self) -> Seq<usize> {
        self.inner()@
    }
}

impl<T, B: Brand> BrandedVec<T, B> {
    /// The vector behind the brand.
    pub closed spec fn inner(&self) -> Vec<T> {
        self.vec
    }

    /// Tags `vec` with the brand of `fresh`, consuming the token.
    pub fn new(fresh: FreshBrand<B>, vec: Vec<T>) -> (r: Self)
        ensures
            r.inner() == vec,
    {
        BrandedVec { vec, brand: fresh.into() }
    }

    /// The number of elements.
    pub fn len(&self) -> (r: usize)
        ensures
            r == self@.len(),
    {
        self.vec.len()
    }

    /// Every position of the vector, in increasing order.
    pub fn indices(&self) -> (r: BrandedIndices<B>)
        ensures
            r@.len() == self@.len(),
            forall|k: int| 0 <= k < r@.len() ==> #[trigger] r@[k] == k,
    {
        let n = self.vec.len();
        let mut positions: Vec<usize> = Vec::with_capacity(n);
        let mut i: usize = 0;
        while i < n
            invariant
                n == self@.len(),
                i <= n,
                positions@.len() == i,
                forall|k: int| 0 <= k < i ==> #[trigger] positions@[k] == k,
            decreases n - i,
        {
            positions.push(i);
            i = i + 1;
        }
        BrandedIndices { positions, brand: PhantomData }
    }

    /// The element at `index`.
    ///
    /// The brand makes the type checker refuse an index of any other vector; the bound is the
    /// same fact, stated for the verifier, so the vector's own bounds check never fails.
    ///
    /// ```compile_fail
    /// use brandy::{Brand, BrandedIndex, BrandedVec};
    ///
    /// fn mix<B1: Brand, B2: Brand>(v: &BrandedVec<u8, B1>, i: BrandedIndex<B2>) -> u8 {
    ///     *v.at(i)
    /// }
    /// ```
    pub fn at(&self, index: BrandedIndex<B>) -> (r: &T)
        requires
            index.pos() < self@.len(),
        ensures
            *r == self@[index.pos() as int],
    {
        &self.vec[index.index]
    }
}

impl<B: Brand> BrandedIndices<B> {
    /// The positions, as plain numbers.
    pub closed spec fn inner(&self) -> Vec<usize> {
        self.positions
    }

    /// The number of positions in the list.
    pub fn len(&self) -> (r: usize)
        ensures
            r == self@.len(),
    {
        self.positions.len()
    }

    /// The `k`-th index of the list.
    pub fn get(&self, k: usize) -> (r: BrandedIndex<B>)
        requires
            k < self@.len(),
        ensures
            r.pos() == self@[k as int],
    {
        BrandedIndex { index: self.positions[k], brand: PhantomData }
    }

    /// Reverses the order of the list.
    pub fn reverse(&mut self)
        ensures
            final(self)@ == old(self)@.reverse(),
    {
        let n = self.positions.len();
        let ghost orig = self.positions@;
        let mut i: usize = 0;
        while i < n / 2
            invariant
                n == orig.len(),
                i <= n / 2,
                self.positions@.len() == n,
                forall|k: int|
                    0 <= k < n ==> #[trigger] self.positions@[k] == if k < i || n - i <= k {
                        orig[n - 1 - k]
                    } else {
                        orig[k]
                    },
            decreases n / 2 - i,
        {
            let j = n - 1 - i;
            let a = self.positions[i];
            let b = self.positions[j];
            self.positions.set(i, b);
            self.positions.set(j, a);
            i = i + 1;
        }
        assert(self.positions@ =~= orig.reverse());
    }

    /// Removes and returns the last index of the list, if any.
    pub fn pop(&mut self) -> (r: Option<BrandedIndex<B>>)
        ensures
            old(self)@.len() == 0 ==> r.is_none() && final(self)@ == old(self)@,
            old(self)@.len() > 0 ==> r.is_some() && r.unwrap().pos() == old(self)@.last()
                && final(self)@ == old(self)@.drop_last(),
    {
        match self.positions.pop() {
            Some(index) => Some(BrandedIndex { index, brand: PhantomData }),
            None => None,
        }
    }
}

/// The family of a branded vector together with a list of indices into it, both under one brand.
pub struct VecWithIndices<T> {
    elements: PhantomData<T>,
}

impl<T> FreeBrand for VecWithIndices<T> {
    type Erased = (Vec<T>, Vec<usize>);
}

impl<T, B: Brand> BindBrand<B> for VecWithIndices<T> {
    type Bind = (BrandedVec<T, B>, BrandedIndices<B>);

    open spec fn erased_of(value: Self::Bind) -> Self::Erased {
        (value.0.inner(), value.1.inner())
    }

    proof fn lemma_erased_of_injective(a: Self::Bind, b: Self::Bind) {
    }

    fn erase(value: Self::Bind) -> (r: Self::Erased) {
        (value.0.vec, value.1.positions)
    }

    fn attach(erased: Self::Erased, fresh: FreshBrand<B>) -> (r: Self::Bind) {
        let indices = BrandedIndices { positions: erased.1, brand: PhantomData };
        (BrandedVec::new(fresh, erased.0), indices)
    }
}

/// A vector and its list of indices that go through `bind` and `substitute` come back with the
/// same elements and the same positions, so reading the vector through any index of the list
/// gives what it gave under the first brand.
pub proof fn lemma_vec_with_indices_round_trip<T, B1: Brand, B2: Brand>(
    value: (BrandedVec<T, B1>, BrandedIndices<B1>),
    bound: BoundBrand<VecWithIndices<T>>,
    back: (BrandedVec<T, B2>, BrandedIndices<B2>),
)
    requires
        bound.contents() == <VecWithIndices<T> as BindBrand<B1>>::erased_of(value),
        <VecWithIndices<T> as BindBrand<B2>>::erased_of(back) == bound.contents(),
    ensures
        back.0@ == value.0@,
        back.1@ == value.1@,
        forall|k: int|
            0 <= k < back.1@.len() && back.1@[k] < back.0@.len()
                ==> #[trigger] back.0@[back.1@[k] as int] == value.0@[value.1@[k] as int],
{
    lemma_transfer_round_trip::<VecWithIndices<T>, B1, B2>(value, bound, back);
}

} // verus!
