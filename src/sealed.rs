use vstd::prelude::*;

verus! {

/// Supertrait of `Brand` that only this crate can name, so that no other crate can add a
/// member to the family of brands.
pub trait Sealed {}

} // verus!
