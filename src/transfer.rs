use vstd::prelude::*;

use crate::brand::{Brand, FreshBrand};

verus! {

/// A family of types with a free brand variable: one member for each brand.
///
/// `Erased` is what every member holds apart from its brand; a `BoundBrand` of the family stores
/// exactly that, so a value can outlive the scope of the brand it was made under. The member for
/// a given brand is named through `BindBrand`, whose `erase` and `attach` move the contents out
/// of and into a member; no bytes are reinterpreted.
pub trait FreeBrand {
    /// The brand-free contents of a member of the family.
    type Erased;
}

/// The member of family `Self` for brand `B`, and the two moves between it and the brand-free
/// contents. A brand may appear in a member only as a marker: two members with the same contents
/// are the same value, so both moves keep every datum.
pub trait BindBrand<B: Brand>: FreeBrand {
    /// The member of the family for brand `B`.
    type Bind;

    /// The contents of a member, its brand left out.
    spec fn erased_of(value: Self::Bind) -> Self::Erased;

    /// Members with the same contents are equal: the contents leave nothing of a member out.
    proof fn lemma_erased_of_injective(a: Self::Bind, b: Self::Bind)
        requires
            Self::erased_of(a) == Self::erased_of(b),
        ensures
            a == b,
    ;

    /// Gives up the brand of a member, keeping its contents.
    fn erase(value: Self::Bind) -> (r: Self::Erased)
        ensures
            r == Self::erased_of(value),
    ;

    /// Tags contents with the fresh brand `B`.
    fn attach(erased: Self::Erased, fresh: FreshBrand<B>) -> (r: Self::Bind)
        ensures
            Self::erased_of(r) == erased,
    ;
}

/// A member of family `F` whose brand variable is bound: it names no brand, and is only used
/// again once `substitute` has given it a fresh one.
pub struct BoundBrand<F: FreeBrand> {
    erased: F::Erased,
}

impl<F: FreeBrand> BoundBrand<F> {
    /// The contents that the bound value carries.
    pub closed spec fn contents(&self) -> F::Erased {
        self.erased
    }

    /// Substitutes a fresh brand variable for the bound brand variable.
    pub fn substitute<B: Brand>(self, fresh: FreshBrand<B>) -> (r: <F as BindBrand<B>>::Bind)
        where
            F: BindBrand<B>,
        ensures
            <F as BindBrand<B>>::erased_of(r) == self.contents(),
    {
        F::attach(self.erased, fresh)
    }

    /// Binds a brand variable, abstracting away the specific brand used.
    pub fn bind<B: Brand>(value: <F as BindBrand<B>>::Bind) -> (r: Self)
        where
            F: BindBrand<B>,
        ensures
            r.contents() == <F as BindBrand<B>>::erased_of(value),
    {
        BoundBrand { erased: F::erase(value) }
    }
}

/// Binding a value under one brand and substituting a fresh brand for the bound variable gives
/// back a value with the same contents: only its brand has changed.
pub proof fn lemma_transfer_round_trip<F, B1: Brand, B2: Brand>(
    value: <F as BindBrand<B1>>::Bind,
    bound: BoundBrand<F>,
    back: <F as BindBrand<B2>>::Bind,
) where F: BindBrand<B1> + BindBrand<B2>,
    requires
        bound.contents() == <F as BindBrand<B1>>::erased_of(value),
        <F as BindBrand<B2>>::erased_of(back) == bound.contents(),
    ensures
        <F as BindBrand<B2>>::erased_of(back) == <F as BindBrand<B1>>::erased_of(value),
{
}

} // verus!
