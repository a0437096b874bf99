use vstd::prelude::*;

use crate::asset::AssetInfo;
use crate::decimal::{Decimal, DECIMAL_FRACTIONAL_SQUARED};
use crate::error::ContractError;
use crate::fixed_rate_provider::ConfigResponse;
use crate::rate_provider::GetExchangeRateResponse;

verus! {

/// State of a fixed-rate provider: a contract that answers rate
/// queries for one asset pair with a manually maintained rate.
#[derive(Clone, Debug)]
pub struct Config {
    /// Address that created the provider; only it may update the
    /// rate.
    pub creator: String,
    /// The two assets the rate relates, ordered.
    pub asset_infos: [AssetInfo; 2],
    /// How many units of `asset_infos[1]` one unit of
    /// `asset_infos[0]` is worth. Strictly positive.
    pub exchange_rate: Decimal,
}

impl Config {
    /// The provided rate is positive, so both query directions are
    /// answerable.
    pub open spec fn wf(&self) -> bool {
        0 < self.exchange_rate.atomics
    }

    /// The requested pair in the stored order.
    pub open spec fn spec_forward(&self, offer: &AssetInfo, ask: &AssetInfo) -> bool {
        offer.same_as(&self.asset_infos@[0]) && ask.same_as(&self.asset_infos@[1])
    }

    /// The requested pair in the reverse order.
    pub open spec fn spec_reverse(&self, offer: &AssetInfo, ask: &AssetInfo) -> bool {
        offer.same_as(&self.asset_infos@[1]) && ask.same_as(&self.asset_infos@[0])
    }
}

/// Builds the provider's state, rejecting a doubled asset pair and a
/// non-positive initial rate. (Storing the state is host I/O and
/// lives outside the library.)
pub fn init_config(creator: String, asset_infos: [AssetInfo; 2], exchange_rate: Decimal) -> (r:
    Result<Config, ContractError>)
    ensures
        asset_infos@[0].same_as(&asset_infos@[1]) ==> r == Err::<Config, _>(
            ContractError::DoublingAssets,
        ),
        !asset_infos@[0].same_as(&asset_infos@[1]) && exchange_rate.atomics == 0 ==> r == Err::<
            Config,
            _,
        >(ContractError::InvalidRate),
        !asset_infos@[0].same_as(&asset_infos@[1]) && exchange_rate.atomics != 0 ==> ({
            &&& r matches Ok(c)
            &&& c.wf()
            &&& c.creator@ == creator@
            &&& c.asset_infos@ == asset_infos@
            &&& c.exchange_rate == exchange_rate
        }),
{
    if asset_infos[0].equal(&asset_infos[1]) {
        return Err(ContractError::DoublingAssets);
    }
    if exchange_rate.is_zero() {
        return Err(ContractError::InvalidRate);
    }
    Ok(Config { creator, asset_infos, exchange_rate })
}

/// Replaces the provided rate. Only the creator may do so, and a
/// non-positive rate is rejected; on any error the state is
/// unchanged.
pub fn update_exchange_rate(config: &mut Config, sender: &String, exchange_rate: Decimal) -> (r:
    Result<(), ContractError>)
    requires
        old(config).wf(),
    ensures
        sender@ != old(config).creator@ ==> r == Err::<(), _>(ContractError::Unauthorized)
            && *final(config) == *old(config),
        sender@ == old(config).creator@ && exchange_rate.atomics == 0 ==> r == Err::<(), _>(
            ContractError::InvalidRate,
        ) && *final(config) == *old(config),
        sender@ == old(config).creator@ && exchange_rate.atomics != 0 ==> r == Ok::<
            (),
            ContractError,
        >(()) && *final(config) == (Config { exchange_rate, ..*old(config) }),
        final(config).wf(),
{
    if !(*sender == config.creator) {
        return Err(ContractError::Unauthorized);
    }
    if exchange_rate.is_zero() {
        return Err(ContractError::InvalidRate);
    }
    config.exchange_rate = exchange_rate;
    Ok(())
}

/// Answers a rate query: the stored rate for the stored order, its
/// extended-precision inverse for the reverse order, and a mismatch
/// error for any other pair. The given assets are echoed back in the
/// response.
pub fn query_rate(config: &Config, offer_asset: AssetInfo, ask_asset: AssetInfo) -> (r: Result<
    GetExchangeRateResponse,
    ContractError,
>)
    requires
        config.wf(),
    ensures
        config.spec_forward(&offer_asset, &ask_asset) ==> ({
            &&& r matches Ok(resp)
            &&& resp.offer_asset == offer_asset
            &&& resp.ask_asset == ask_asset
            &&& resp.exchange_rate == config.exchange_rate
        }),
        !config.spec_forward(&offer_asset, &ask_asset) && config.spec_reverse(
            &offer_asset,
            &ask_asset,
        ) ==> ({
            &&& r matches Ok(resp)
            &&& resp.offer_asset == offer_asset
            &&& resp.ask_asset == ask_asset
            &&& resp.exchange_rate == (Decimal {
                atomics: DECIMAL_FRACTIONAL_SQUARED / config.exchange_rate.atomics,
            })
        }),
        !config.spec_forward(&offer_asset, &ask_asset) && !config.spec_reverse(
            &offer_asset,
            &ask_asset,
        ) ==> r == Err::<GetExchangeRateResponse, _>(ContractError::AssetMismatch),
{
    let exchange_rate: Decimal = if offer_asset.equal(&config.asset_infos[0]) && ask_asset.equal(
        &config.asset_infos[1],
    ) {
        config.exchange_rate
    } else if offer_asset.equal(&config.asset_infos[1]) && ask_asset.equal(
        &config.asset_infos[0],
    ) {
        Decimal { atomics: DECIMAL_FRACTIONAL_SQUARED / config.exchange_rate.atomics }
    } else {
        return Err(ContractError::AssetMismatch);
    };
    Ok(GetExchangeRateResponse { offer_asset, ask_asset, exchange_rate })
}

/// Answers a configuration query.
pub fn query_config(config: &Config) -> (r: ConfigResponse)
    ensures
        r.asset_infos@ == config.asset_infos@,
        r.exchange_rate == config.exchange_rate,
{
    let assets: [AssetInfo; 2] = [
        config.asset_infos[0].duplicate(),
        config.asset_infos[1].duplicate(),
    ];
    proof {
        assert(assets@ =~= config.asset_infos@);
    }
    ConfigResponse { asset_infos: assets, exchange_rate: config.exchange_rate }
}

} // verus!
