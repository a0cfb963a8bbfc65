//! Zero-cost brands: type-level tags that tell apart values made in different scopes.
use vstd::prelude::*;

mod sealed;
pub mod brand;
pub mod transfer;
pub mod branded;

pub use brand::{Brand, FreshBrand, WithFreshBrand};
pub use transfer::{BindBrand, BoundBrand, FreeBrand};
pub use branded::{BrandedIndex, BrandedIndices, BrandedVec, VecWithIndices};
