use vstd::prelude::*;

verus! {

/// Errors surfaced by the pool, the exchange-rate cache, the
/// amplification schedule and the invariant solver.
///
/// Configuration errors (`DoublingAssets`, `IncorrectAmp`, ...) are
/// rejected before any state mutation; numerical errors (`Overflow`,
/// `ConvergenceError`) abort the whole operation; economic-guard errors
/// (`MaxSpreadAssertion`, ...) protect the caller; oracle errors
/// (`InvalidRate`, `StaleExchangeRate`) are never silently replaced by
/// a stale or default rate.
#[derive(Clone, Copy, Debug, PartialEq, Eq, Structural)]
pub enum ContractError {
    Unauthorized,
    DoublingAssets,
    InvalidZeroAmount,
    LiquidityAmountTooSmall,
    AllowedSpreadAssertion,
    MaxSpreadAssertion,
    MaxSlippageAssertion,
    AssetMismatch,
    PairTypeMismatch,
    IncorrectAmp,
    MaxAmpChangeAssertion,
    MinAmpChangingTimeAssertion,
    InitParamsNotFound,
    AutoStakeError,
    InvalidRateProviderError,
    WrongAssetInfoError,
    InvalidRate,
    InvalidTtl,
    StaleExchangeRate,
    ConvergenceError,
    Overflow,
}

impl ContractError {
    /// Human-readable description of the error, offered in place of a
    /// `Display` implementation.
    pub fn message(&self) -> (r: &'static str) {
        match self {
            ContractError::Unauthorized => "Unauthorized",
            ContractError::DoublingAssets => "Doubling assets in asset infos",
            ContractError::InvalidZeroAmount => "Event of zero transfer",
            ContractError::LiquidityAmountTooSmall => "Insufficient amount of liquidity",
            ContractError::AllowedSpreadAssertion => {
                "Provided spread amount exceeds allowed limit"
            },
            ContractError::MaxSpreadAssertion => "Operation exceeds max spread limit",
            ContractError::MaxSlippageAssertion => "Operation exceeds max splippage tolerance",
            ContractError::AssetMismatch => "Given assets don't belong to the pair",
            ContractError::PairTypeMismatch => "Pair type mismatch. Check factory pair configs",
            ContractError::IncorrectAmp => {
                "Amp coefficient must be greater than 0 and less than or equal to 1000000"
            },
            ContractError::MaxAmpChangeAssertion => {
                "The difference between the old and new amp value must not exceed 10 times"
            },
            ContractError::MinAmpChangingTimeAssertion => {
                "Amp coefficient cannot be changed more often than once per 86400 seconds"
            },
            ContractError::InitParamsNotFound => "You need to provide init params",
            ContractError::AutoStakeError => {
                "Generator address is not set in factory. Cannot autostake"
            },
            ContractError::InvalidRateProviderError => {
                "Exchange rate provider address is invalid"
            },
            ContractError::WrongAssetInfoError => "Wrong asset info is given",
            ContractError::InvalidRate => "Exchange rate must be greater that zero",
            ContractError::InvalidTtl => {
                "Exchange rate cache blocks to live must be greater than 0"
            },
            ContractError::StaleExchangeRate => {
                "Cached exchange rate has expired and no fresh rate was supplied"
            },
            ContractError::ConvergenceError => "Invariant iteration did not converge",
            ContractError::Overflow => "An arithmetic step overflowed or divided by zero",
        }
    }
}

} // verus!
