//! Metastable two-asset AMM pool core.
//!
//! A StableSwap-style invariant engine generalized to operate on
//! rate-normalized balances: the fair relative price of the two pool
//! assets is not 1:1 but supplied by an external rate oracle. The crate
//! holds the invariant solver, the amplification-coefficient ramp, the
//! exchange-rate cache with expiry and bidirectional inversion, and the
//! liquidity / swap accounting built on top of them. Host plumbing
//! (storage, message passing, token transfers) stays outside.

pub mod amp;
pub mod asset;
pub mod cache;
pub mod decimal;
pub mod error;
pub mod fixed_rate_provider;
pub mod math;
pub mod pair_metastable;
pub mod pool;
pub mod provider;
pub mod rate_provider;
