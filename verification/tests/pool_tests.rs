use metastable_pool::amp::AmpSchedule;
use metastable_pool::asset::AssetInfo;
use metastable_pool::cache::CachedExchangeRate;
use metastable_pool::decimal::Decimal;
use metastable_pool::error::ContractError;
use metastable_pool::pool::{Config, Pool};

fn uusd() -> AssetInfo {
    AssetInfo::NativeToken {
        denom: String::from("uusd"),
    }
}

fn uluna() -> AssetInfo {
    AssetInfo::NativeToken {
        denom: String::from("uluna"),
    }
}

/// amp 100, rate 1:5 observed at height 10, cache window of 100
/// blocks, 0.3% commission, created at time 1000.
fn new_pool(commission_permille: u128, min_liquidity: u128) -> Pool {
    Pool::new(
        [uusd(), uluna()],
        100,
        String::from("provider0000"),
        100,
        Decimal::from_ratio(1u128, 5u128),
        10,
        1000,
        Decimal::from_ratio(commission_permille, 1000u128),
        min_liquidity,
    )
    .unwrap()
}

#[test]
fn provide_share_symmetry() {
    // two identical provisions mint identical share counts
    let mut pool = new_pool(3, 0);
    let minted = pool
        .provide_liquidity(500, 100, None, None, 10, 1000)
        .unwrap();
    assert_eq!(minted, 200);
    let minted = pool
        .provide_liquidity(500, 100, None, None, 10, 1000)
        .unwrap();
    assert_eq!(minted, 200);
    assert_eq!(pool.balances(), (1000, 200));
    assert_eq!(pool.share_supply(), 400);
}

#[test]
fn full_withdrawal_returns_everything() {
    let mut pool = new_pool(3, 0);
    pool.provide_liquidity(500, 100, None, None, 10, 1000)
        .unwrap();
    pool.provide_liquidity(500, 100, None, None, 10, 1000)
        .unwrap();
    let (r0, r1) = pool.withdraw_liquidity(400, 1000).unwrap();
    assert_eq!((r0, r1), (1000, 200));
    assert_eq!(pool.balances(), (0, 0));
    assert_eq!(pool.share_supply(), 0);
}

#[test]
fn partial_withdrawal_is_pro_rata() {
    let mut pool = new_pool(3, 0);
    pool.provide_liquidity(1_100_000, 180_069, None, None, 10, 1000)
        .unwrap();
    let total = pool.share_supply();
    let (r0, r1) = pool.withdraw_liquidity(total / 4, 1000).unwrap();
    assert_eq!(r0, 1_100_000 * (total / 4) / total);
    assert_eq!(r1, 180_069 * (total / 4) / total);
    assert_eq!(pool.balances(), (1_100_000 - r0, 180_069 - r1));
}

#[test]
fn minimum_liquidity_is_locked() {
    // the floor is subtracted from the first mint but stays in the
    // share total, so it can never be withdrawn by holders
    let mut pool = new_pool(3, 50);
    let minted = pool
        .provide_liquidity(500, 100, None, None, 10, 1000)
        .unwrap();
    assert_eq!(minted, 150);
    assert_eq!(pool.share_supply(), 200);
    let (r0, r1) = pool.withdraw_liquidity(150, 1000).unwrap();
    assert_eq!((r0, r1), (375, 75));
    assert_eq!(pool.balances(), (125, 25));
    assert_eq!(pool.share_supply(), 50);

    // a first provision below the floor mints nothing and fails
    let mut pool = new_pool(3, 300);
    assert_eq!(
        pool.provide_liquidity(500, 100, None, None, 10, 1000)
            .unwrap_err(),
        ContractError::LiquidityAmountTooSmall
    );
    assert_eq!(pool.balances(), (0, 0));
}

#[test]
fn swap_output_spread_and_commission() {
    let mut pool = new_pool(3, 0);
    pool.provide_liquidity(1_000_000, 200_000, None, None, 10, 1000)
        .unwrap();
    let res = pool
        .swap(&uusd(), 100_000, None, None, None, 10, 1000)
        .unwrap();
    assert_eq!(res.return_amount, 19_931);
    assert_eq!(res.spread_amount, 10);
    assert_eq!(res.commission_amount, 59);
    // the commission stays in the pool
    assert_eq!(pool.balances(), (1_100_000, 180_069));
}

#[test]
fn swap_in_reverse_direction() {
    let mut pool = new_pool(3, 0);
    pool.provide_liquidity(1_000_000, 200_000, None, None, 10, 1000)
        .unwrap();
    let res = pool
        .swap(&uluna(), 20_000, None, None, None, 10, 1000)
        .unwrap();
    assert_eq!(res.return_amount, 99_651);
    assert_eq!(res.spread_amount, 50);
    assert_eq!(res.commission_amount, 299);
    // only the post-commission amount leaves the pool
    assert_eq!(pool.balances(), (1_000_000 - 99_651, 220_000));
}

#[test]
fn reverse_simulation_inverts_swap() {
    let mut pool = new_pool(3, 0);
    pool.provide_liquidity(1_000_000, 200_000, None, None, 10, 1000)
        .unwrap();
    // the offer a 19,931-uluna output demands is the 100,000-uusd
    // trade of the forward simulation, with the same spread and
    // commission
    let res = pool
        .reverse_simulation(&uluna(), 19_931, None, 10, 1000)
        .unwrap();
    assert_eq!(res.offer_amount, 100_000);
    assert_eq!(res.spread_amount, 10);
    assert_eq!(res.commission_amount, 59);
    // and in the other direction
    let res = pool
        .reverse_simulation(&uusd(), 99_651, None, 10, 1000)
        .unwrap();
    assert_eq!(res.offer_amount, 20_000);
    assert_eq!(res.spread_amount, 50);
    assert_eq!(res.commission_amount, 299);
    // guards hold here too
    assert_eq!(
        pool.reverse_simulation(&uluna(), 0, None, 10, 1000)
            .unwrap_err(),
        ContractError::InvalidZeroAmount
    );
    let foreign = AssetInfo::NativeToken {
        denom: String::from("ukrw"),
    };
    assert_eq!(
        pool.reverse_simulation(&foreign, 10, None, 10, 1000)
            .unwrap_err(),
        ContractError::AssetMismatch
    );
}

#[test]
fn swap_guards() {
    // spread guard: a 1:1-pool-sized trade realizes ~4.76% spread
    let mut pool = new_pool(0, 0);
    pool.provide_liquidity(1_000_000, 200_000, None, None, 10, 1000)
        .unwrap();
    assert_eq!(
        pool.swap(
            &uusd(),
            1_000_000,
            None,
            Some(Decimal::from_ratio(4u128, 100u128)),
            None,
            10,
            1000
        )
        .unwrap_err(),
        ContractError::MaxSpreadAssertion
    );
    assert!(pool
        .swap(
            &uusd(),
            1_000_000,
            None,
            Some(Decimal::from_ratio(5u128, 100u128)),
            None,
            10,
            1000
        )
        .is_ok());

    // belief-price guard: the realized offer-per-output price of a
    // 100k trade is slightly above 5
    let mut pool = new_pool(3, 0);
    pool.provide_liquidity(1_000_000, 200_000, None, None, 10, 1000)
        .unwrap();
    assert_eq!(
        pool.swap(
            &uusd(),
            100_000,
            Some(Decimal::from_ratio(5u128, 1u128)),
            None,
            None,
            10,
            1000
        )
        .unwrap_err(),
        ContractError::MaxSlippageAssertion
    );
    assert!(pool
        .swap(
            &uusd(),
            100_000,
            Some(Decimal::from_ratio(51u128, 10u128)),
            None,
            None,
            10,
            1000
        )
        .is_ok());
}

#[test]
fn larger_trades_get_worse_prices() {
    // swap output per offered unit is non-increasing in trade size
    let mut pool = new_pool(0, 0);
    pool.provide_liquidity(1_000_000, 200_000, None, None, 10, 1000)
        .unwrap();
    let r1 = pool
        .simulation(&uusd(), 100_000, None, 10, 1000)
        .unwrap()
        .return_amount;
    let r2 = pool
        .simulation(&uusd(), 300_000, None, 10, 1000)
        .unwrap()
        .return_amount;
    let r3 = pool
        .simulation(&uusd(), 1_000_000, None, 10, 1000)
        .unwrap()
        .return_amount;
    assert_eq!((r1, r2, r3), (19_990, 59_902, 190_488));
    assert!(r1 * 300_000 >= r2 * 100_000);
    assert!(r2 * 1_000_000 >= r3 * 300_000);
}

#[test]
fn provide_slippage_tolerance() {
    // a one-sided provision mints less than a balanced one would;
    // a tight tolerance rejects it, a loose one accepts it
    let mut pool = new_pool(3, 0);
    pool.provide_liquidity(500, 100, None, None, 10, 1000)
        .unwrap();
    assert_eq!(
        pool.provide_liquidity(
            500,
            1,
            Some(Decimal::from_ratio(5u128, 1000u128)),
            None,
            10,
            1000
        )
        .unwrap_err(),
        ContractError::AllowedSpreadAssertion
    );
    let minted = pool
        .provide_liquidity(
            500,
            1,
            Some(Decimal::from_ratio(2u128, 100u128)),
            None,
            10,
            1000
        )
        .unwrap();
    assert_eq!(minted, 100);
}

#[test]
fn cache_ttl_governs_refresh() {
    // rate cached at height 10 with a 100-block window: height 109
    // still answers from the cache, height 110 demands a refresh
    let mut pool = new_pool(3, 0);
    pool.provide_liquidity(500, 100, None, None, 10, 1000)
        .unwrap();
    assert!(pool.simulation(&uusd(), 100, None, 109, 1000).is_ok());
    assert_eq!(
        pool.simulation(&uusd(), 100, None, 110, 1000).unwrap_err(),
        ContractError::StaleExchangeRate
    );
    // a zero oracle answer is rejected, never cached
    assert_eq!(
        pool.simulation(&uusd(), 100, Some(Decimal::zero()), 110, 1000)
            .unwrap_err(),
        ContractError::InvalidRate
    );
    // a fresh rate is used and stored with the current height
    pool.swap(
        &uusd(),
        100,
        None,
        None,
        Some(Decimal::from_ratio(2u128, 5u128)),
        110,
        1000,
    )
    .unwrap();
    assert_eq!(pool.er_cache.exchange_rate, Decimal::from_ratio(2u128, 5u128));
    assert_eq!(pool.er_cache.height, 110);
    assert!(pool.simulation(&uusd(), 100, None, 209, 1000).is_ok());
    assert_eq!(
        pool.simulation(&uusd(), 100, None, 210, 1000).unwrap_err(),
        ContractError::StaleExchangeRate
    );
}

#[test]
fn cumulative_prices_advance_once_per_timestamp() {
    let mut pool = new_pool(3, 0);
    // provision at the creation timestamp accumulates nothing
    pool.provide_liquidity(500, 100, None, None, 10, 1000)
        .unwrap();
    assert_eq!(pool.cumulative_prices(), (0, 0, 1000));
    // 100 seconds later, on a balanced pool the curve factor is one:
    // spot prices are the rate and its inverse, in atomics
    pool.swap(&uusd(), 100, None, None, None, 10, 1100).unwrap();
    assert_eq!(
        pool.cumulative_prices(),
        (
            20_000_000_000_000_000_000,
            500_000_000_000_000_000_000,
            1100
        )
    );
    // a second operation at the same timestamp adds nothing
    pool.swap(&uusd(), 100, None, None, None, 10, 1100).unwrap();
    assert_eq!(
        pool.cumulative_prices(),
        (
            20_000_000_000_000_000_000,
            500_000_000_000_000_000_000,
            1100
        )
    );
    // a query at the same timestamp reports the stored values
    let (a0, a1, t) = pool.cumulative_prices_at(1100).unwrap();
    assert_eq!(
        (a0, a1, t),
        (
            20_000_000_000_000_000_000,
            500_000_000_000_000_000_000,
            1100
        )
    );
}

#[test]
fn test_if_twap_is_calculated_correctly_when_pool_idles() {
    let mut pool = new_pool(3, 0);
    const ELAPSED_SECONDS: u64 = 86400;

    // provide liquidity, accumulators are empty
    pool.provide_liquidity(1_000_000_000_000, 1_000_000_000_000, None, None, 10, 1000)
        .unwrap();
    assert_eq!(pool.cumulative_prices(), (0, 0, 1000));

    // a day later: provide again; the day accrues at the curve price
    // of the pre-mutation balances (1e12, 1e12 -> balanced at 1:5)
    let t1 = 1000 + ELAPSED_SECONDS;
    pool.provide_liquidity(3_000_000_000_000, 1_000_000_000_000, None, None, 10, t1)
        .unwrap();
    let cpr_old = pool.cumulative_prices();
    assert_eq!(
        cpr_old,
        (
            17_648_670_266_956_648_656_000,
            422_920_994_265_079_005_312_000,
            t1
        )
    );

    // another idle day: a query advances the accumulators at the
    // curve price of the now-imbalanced balances (4e12, 2e12)
    let t2 = t1 + ELAPSED_SECONDS;
    let (a0, a1, t) = pool.cumulative_prices_at(t2).unwrap();
    assert_eq!(t, t2);
    let twap0 = a0 - cpr_old.0;
    let twap1 = a1 - cpr_old.1;
    assert_eq!(twap0, 17_390_333_253_462_083_395_200);
    assert_eq!(twap1, 429_247_127_089_376_436_240_000);
    // nothing was committed by the queries
    assert_eq!(pool.cumulative_prices(), cpr_old);
    // and a repeated query reports the same values
    assert_eq!(pool.cumulative_prices_at(t2).unwrap(), (a0, a1, t2));
}

#[test]
fn withdrawal_scales_beyond_128_bit_products() {
    let base = Pool {
        config: Config {
            asset_infos: [uusd(), uluna()],
            er_provider_addr: String::from("provider0000"),
            amp: AmpSchedule {
                init_amp: 10_000,
                init_amp_time: 1000,
                next_amp: 10_000,
                next_amp_time: 1000,
            },
            block_time_last: 1000,
            price0_cumulative_last: 0,
            price1_cumulative_last: 0,
            commission_rate: Decimal::from_ratio(3u128, 1000u128),
            min_liquidity: 0,
        },
        er_cache: CachedExchangeRate::new(
            [uusd(), uluna()],
            Decimal::from_ratio(1u128, 5u128),
            10,
            100,
        )
        .unwrap(),
        balance0: u128::MAX / 2,
        balance1: u128::MAX / 3,
        total_shares: 1u128 << 100,
    };

    // a 100% withdrawal returns everything at any scale
    let mut pool = base.clone();
    let (r0, r1) = pool.withdraw_liquidity(1u128 << 100, 1000).unwrap();
    assert_eq!((r0, r1), (u128::MAX / 2, u128::MAX / 3));
    assert_eq!(pool.balances(), (0, 0));
    assert_eq!(pool.share_supply(), 0);

    // a pro-rata withdrawal whose full product exceeds 128 bits
    let mut pool = base.clone();
    pool.balance0 = 100_000_000_000_000_000_000_000_000_000_000_000_000;
    pool.balance1 = 10_000_000_000_000_000_000_000_000_000_000_000_000;
    pool.total_shares = 1_000_000_000_000_000_000;
    let (r0, r1) = pool
        .withdraw_liquidity(100_000_000_000_000_000, 1000)
        .unwrap();
    assert_eq!(r0, 10_000_000_000_000_000_000_000_000_000_000_000_000);
    assert_eq!(r1, 1_000_000_000_000_000_000_000_000_000_000_000_000);
}

#[test]
fn zero_amounts_are_rejected() {
    let mut pool = new_pool(3, 0);
    pool.provide_liquidity(500, 100, None, None, 10, 1000)
        .unwrap();
    assert_eq!(
        pool.provide_liquidity(0, 100, None, None, 10, 1000)
            .unwrap_err(),
        ContractError::InvalidZeroAmount
    );
    assert_eq!(
        pool.provide_liquidity(500, 0, None, None, 10, 1000)
            .unwrap_err(),
        ContractError::InvalidZeroAmount
    );
    assert_eq!(
        pool.withdraw_liquidity(0, 1000).unwrap_err(),
        ContractError::InvalidZeroAmount
    );
    assert_eq!(
        pool.swap(&uusd(), 0, None, None, None, 10, 1000).unwrap_err(),
        ContractError::InvalidZeroAmount
    );
}

#[test]
fn foreign_assets_are_rejected() {
    let mut pool = new_pool(3, 0);
    pool.provide_liquidity(500, 100, None, None, 10, 1000)
        .unwrap();
    let foreign = AssetInfo::NativeToken {
        denom: String::from("ukrw"),
    };
    assert_eq!(
        pool.swap(&foreign, 100, None, None, None, 10, 1000)
            .unwrap_err(),
        ContractError::AssetMismatch
    );
}

#[test]
fn create_pair_with_same_assets() {
    let err = Pool::new(
        [uusd(), uusd()],
        100,
        String::from("provider0000"),
        100,
        Decimal::from_ratio(1u128, 5u128),
        10,
        1000,
        Decimal::from_ratio(3u128, 1000u128),
        0,
    )
    .unwrap_err();
    assert_eq!(err, ContractError::DoublingAssets);
    assert_eq!(err.message(), "Doubling assets in asset infos");
}

#[test]
fn pool_creation_guards() {
    let mk = |assets: [AssetInfo; 2], amp: u64, rate: Decimal, btl: u64| {
        Pool::new(
            assets,
            amp,
            String::from("provider0000"),
            btl,
            rate,
            10,
            1000,
            Decimal::from_ratio(3u128, 1000u128),
            0,
        )
    };
    assert_eq!(
        mk(
            [uusd(), uusd()],
            100,
            Decimal::from_ratio(1u128, 5u128),
            100
        )
        .unwrap_err(),
        ContractError::DoublingAssets
    );
    assert_eq!(
        mk(
            [uusd(), uluna()],
            0,
            Decimal::from_ratio(1u128, 5u128),
            100
        )
        .unwrap_err(),
        ContractError::IncorrectAmp
    );
    assert_eq!(
        mk([uusd(), uluna()], 100, Decimal::zero(), 100).unwrap_err(),
        ContractError::InvalidRate
    );
    assert_eq!(
        mk(
            [uusd(), uluna()],
            100,
            Decimal::from_ratio(1u128, 5u128),
            0
        )
        .unwrap_err(),
        ContractError::InvalidTtl
    );
}

#[test]
fn arithmetic_overflow_is_surfaced() {
    // an astronomically large rate makes normalization overflow
    let mut pool = Pool::new(
        [uusd(), uluna()],
        100,
        String::from("provider0000"),
        100,
        Decimal::from_atomics(1_000_000_000_000_000_000_000_000_000_000u128),
        10,
        1000,
        Decimal::from_ratio(3u128, 1000u128),
        0,
    )
    .unwrap();
    assert_eq!(
        pool.provide_liquidity(10_000_000_000, 1, None, None, 10, 1000)
            .unwrap_err(),
        ContractError::Overflow
    );
    assert_eq!(pool.balances(), (0, 0));
}
