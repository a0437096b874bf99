use vstd::prelude::*;

use crate::asset::AssetInfo;
use crate::decimal::Decimal;
use crate::error::ContractError;

verus! {

/// The query any rate provider answers.
#[derive(Clone, Debug)]
pub enum QueryMsg {
    /// The current exchange rate between the assets: how many
    /// `ask_asset` one `offer_asset` is worth.
    GetExchangeRate { offer_asset: AssetInfo, ask_asset: AssetInfo },
}

/// A successful rate answer.
#[derive(Clone, Debug)]
pub struct GetExchangeRateResponse {
    pub offer_asset: AssetInfo,
    pub ask_asset: AssetInfo,
    pub exchange_rate: Decimal,
}

/// Caller-side validation of an oracle answer: a rate of zero is
/// rejected rather than cached or used. (Performing the query itself
/// is host I/O and lives outside the library.)
pub fn validate_rate_response(resp: GetExchangeRateResponse) -> (r: Result<
    GetExchangeRateResponse,
    ContractError,
>)
    ensures
        resp.exchange_rate.atomics == 0 ==> r == Err::<GetExchangeRateResponse, _>(
            ContractError::InvalidRate,
        ),
        resp.exchange_rate.atomics != 0 ==> r == Ok::<_, ContractError>(resp),
{
    if resp.exchange_rate.is_zero() {
        Err(ContractError::InvalidRate)
    } else {
        Ok(resp)
    }
}

} // verus!
