use vstd::prelude::*;

use crate::decimal::Decimal;

verus! {

/// Parameters a factory supplies when creating a metastable pool.
#[derive(Clone, Debug)]
pub struct MetastablePoolParams {
    /// The (unscaled) pool amplification.
    pub amp: u64,
    /// The exchange-rate provider contract address.
    pub er_provider_addr: String,
    /// Blocks after which a cached exchange rate expires.
    pub er_cache_btl: u64,
}

/// A metastable pool's configuration, as reported to queriers.
#[derive(Clone, Debug)]
pub struct MetastablePoolConfig {
    /// The currently effective (unscaled) amplification.
    pub amp: Decimal,
    /// The exchange-rate provider contract address.
    pub er_provider_addr: String,
    /// Blocks after which a cached exchange rate expires.
    pub er_cache_btl: u64,
}

/// The options available to update a metastable pool's parameters.
#[derive(Clone, Debug)]
pub enum MetastablePoolUpdateParams {
    StartChangingAmp { next_amp: u64, next_amp_time: u64 },
    StopChangingAmp {},
    UpdateRateProvider { address: String },
    UpdateErCacheBTL { btl: u64 },
}

} // verus!
