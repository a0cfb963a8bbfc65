use std::marker::PhantomData;
use vstd::prelude::*;

use crate::sealed::Sealed;

verus! {

/// The one type that implements `Brand`. It is never named outside this crate: every brand a
/// caller sees is an opaque `impl Brand`.
pub(crate) struct Opaque;

/// Bound for brand variables. The family is closed: `Sealed` cannot be implemented elsewhere.
pub trait Brand: Sealed {}

impl Sealed for Opaque {}

impl Brand for Opaque {}

/// A fresh brand variable that is guaranteed to be unique.
///
/// The token holds no data at run time. In proofs it carries its lineage: the left/right
/// choices of the splits that led to it from the token an entry point handed out.
pub struct FreshBrand<B: Brand> {
    brand: PhantomData<B>,
    lineage: Ghost<Seq<bool>>,
}

impl<B: Brand> FreshBrand<B> {
    /// The splits that produced this token from the root token of its entry point.
    pub closed spec fn lineage(&self) -> Seq<bool> {
        self.lineage@
    }

    /// Produces two unique fresh brand variables by consuming a single fresh brand variable.
    ///
    /// The two halves are different brands: an index of a vector made under one is refused by a
    /// vector made under the other.
    ///
    /// ```compile_fail
    /// use brandy::{Brand, BrandedVec, FreshBrand};
    ///
    /// fn confuse<B: Brand>(fresh: FreshBrand<B>) -> u8 {
    ///     let (a, b) = fresh.split();
    ///     let first = BrandedVec::new(a, vec![1u8, 2]);
    ///     let second = BrandedVec::new(b, vec![3u8, 4]);
    ///     let indices = first.indices();
    ///     *second.at(indices.get(0))
    /// }
    /// ```
    ///
    /// A token is used once: splitting consumes it.
    ///
    /// ```compile_fail
    /// use brandy::{Brand, FreshBrand};
    ///
    /// fn twice<B: Brand>(fresh: FreshBrand<B>) {
    ///     let _first = fresh.split();
    ///     let _second = fresh.split();
    /// }
    /// ```
    #[inline(always)]
    pub fn split(self) -> (r: (FreshBrand<impl Brand>, FreshBrand<impl Brand>))
        ensures
            r.0.lineage() == self.lineage().push(false),
            r.1.lineage() == self.lineage().push(true),
    {
        let ghost l = self.lineage@;
        (
            FreshBrand::<Opaque> { brand: PhantomData, lineage: Ghost(l.push(false)) },
            FreshBrand::<Opaque> { brand: PhantomData, lineage: Ghost(l.push(true)) },
        )
    }
}

/// Tokens that descend from the two halves of one split never share a lineage, and neither
/// lineage extends the other: whatever is split further from one half stays apart from
/// everything split from the other.
pub proof fn lemma_split_halves_apart(parent: Seq<bool>, left: Seq<bool>, right: Seq<bool>)
    requires
        parent.push(false).is_prefix_of(left),
        parent.push(true).is_prefix_of(right),
    ensures
        left != right,
        !left.is_prefix_of(right),
        !right.is_prefix_of(left),
{
    let n = parent.len() as int;
    assert(left[n] == parent.push(false)[n]);
    assert(right[n] == parent.push(true)[n]);
}

/// Turns a token back into the plain phantom marker of its brand, for use as a field of a
/// branded type.
impl<B: Brand> From<FreshBrand<B>> for PhantomData<B> {
    #[inline(always)]
    fn from(_fresh: FreshBrand<B>) -> (r: PhantomData<B>)
        ensures
            r == PhantomData::<B>,
    {
        PhantomData
    }
}

/// A computation that consumes a `FreshBrand` while staying generic over its brand variable.
///
/// Implement `with_fresh_brand` for a type of your own and call `run` to obtain an initial
/// token.
///
/// Each run hands out a brand of its own, known only as an `impl Brand` parameter: a value made
/// under one run cannot be used where another run's brand is expected, and the brand cannot
/// leave the run through `Output`.
///
/// ```compile_fail
/// use brandy::{Brand, BrandedIndex, BrandedVec, FreshBrand, WithFreshBrand};
///
/// struct Escape;
///
/// impl WithFreshBrand for Escape {
///     type Output = BrandedIndex<_>;
///
///     fn with_fresh_brand(fresh: FreshBrand<impl Brand>) -> Self::Output {
///         BrandedVec::new(fresh, vec![1u8]).indices().get(0)
///     }
/// }
/// ```
pub trait WithFreshBrand {
    /// The resulting output type.
    type Output;

    /// Consumes a `FreshBrand` producing some output.
    ///
    /// Implement this method for a type of your own to obtain an initial `FreshBrand`; `run`
    /// hands it a root token, one that no split has produced.
    fn with_fresh_brand(fresh_brand: FreshBrand<impl Brand>) -> Self::Output;

    /// Invokes `with_fresh_brand` with a unique fresh brand variable, a root token, and returns
    /// what it returns.
    #[inline(always)]
    fn run() -> (r: Self::Output)
        ensures
            exists|t: FreshBrand<Opaque>|
                t.lineage() == Seq::<bool>::empty() && call_ensures(Self::with_fresh_brand, (t,), r),
    {
        let root = FreshBrand::<Opaque> { brand: PhantomData, lineage: Ghost(Seq::empty()) };
        let ghost handed = root;
        let r = Self::with_fresh_brand(root);
        assert(handed.lineage() == Seq::<bool>::empty() && call_ensures(
            Self::with_fresh_brand,
            (handed,),
            r,
        ));
        r
    }
}

} // verus!
