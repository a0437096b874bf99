use vstd::prelude::*;

use crate::asset::AssetInfo;
use crate::decimal::Decimal;

verus! {

/// Parameters for creating a fixed-rate provider.
#[derive(Clone, Debug)]
pub struct InstantiateMsg {
    /// The two assets the provided rate relates.
    pub asset_infos: [AssetInfo; 2],
    /// The rate of exchange of asset 0 to asset 1.
    pub exchange_rate: Decimal,
}

/// The operations a fixed-rate provider accepts.
#[derive(Clone, Debug)]
pub enum ExecuteMsg {
    /// Replace the provided exchange rate.
    UpdateExchangeRate { exchange_rate: Decimal },
}

/// The queries a fixed-rate provider answers.
#[derive(Clone, Debug)]
pub enum QueryMsg {
    /// The current exchange rate between the two assets.
    GetExchangeRate { offer_asset: AssetInfo, ask_asset: AssetInfo },
    /// The provider's configuration.
    Config {},
}

/// The provider's configuration, as reported to queriers.
#[derive(Clone, Debug)]
pub struct ConfigResponse {
    /// The two assets the provided rate relates.
    pub asset_infos: [AssetInfo; 2],
    /// The rate of exchange of asset 0 to asset 1.
    pub exchange_rate: Decimal,
}

} // verus!
