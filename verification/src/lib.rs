//! Grids of parton distribution functions: the subgrid data model, the
//! classification of its active axes, point membership and distance, and the
//! two coexisting metadata schemas.
//!
//! Every real number in this crate is carried as the bit pattern of an IEEE 754
//! binary64 value (`u64`); [`scalar`] defines its order.

pub mod dense;
pub mod interpolator;
pub mod layout;
pub mod metadata;
pub mod scalar;
pub mod subgrid;
