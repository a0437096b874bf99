use metastable_pool::asset::AssetInfo;
use metastable_pool::cache::CachedExchangeRate;
use metastable_pool::decimal::Decimal;
use metastable_pool::error::ContractError;

#[test]
fn tmp_pair_exchange_rate() {
    let asset_0 = AssetInfo::NativeToken {
        denom: String::from("uusd"),
    };
    let asset_1 = AssetInfo::Token {
        contract_addr: String::from("asset0000"),
    };

    // check proper initialization
    let mut er = CachedExchangeRate::new(
        [asset_0.clone(), asset_1.clone()],
        Decimal::from_ratio(1u128, 5u128),
        1u64,
        10u64,
    )
    .unwrap();
    assert_eq!(er.asset_infos[0], asset_0);
    assert_eq!(er.asset_infos[1], asset_1);
    assert_eq!(er.btl, 10);
    assert_eq!(er.height, 1);
    assert_eq!(er.exchange_rate, Decimal::from_ratio(1u128, 5u128));

    // check cached value expiration
    assert_eq!(er.is_expired(1), false);
    assert_eq!(er.is_expired(11), true);

    // update btl and check expiration
    er.update_btl(20).unwrap();
    assert_eq!(er.is_expired(1), false);
    assert_eq!(er.is_expired(11), false);
    assert_eq!(er.is_expired(21), true);

    // check get exchange rate in both directions
    assert_eq!(
        er.get_rate([&asset_0, &asset_1]),
        Ok(Decimal::from_ratio(1u128, 5u128))
    );
    assert_eq!(
        er.get_rate([&asset_1, &asset_0]),
        Ok(Decimal::from_ratio(5u128, 1u128))
    );

    // make sure an error response is returned in token mismatch cases
    let asset_2 = AssetInfo::NativeToken {
        denom: String::from("uluna"),
    };
    assert_eq!(
        er.get_rate([&asset_0, &asset_2]),
        Err(ContractError::AssetMismatch)
    );
    assert_eq!(
        er.get_rate([&asset_1, &asset_2]),
        Err(ContractError::AssetMismatch)
    );
    assert_eq!(
        er.get_rate([&asset_0, &asset_0]),
        Err(ContractError::AssetMismatch)
    );
    assert_eq!(
        er.update_rate([&asset_1, &asset_2], Decimal::from_ratio(2u128, 1u128), 1),
        Err(ContractError::AssetMismatch)
    );
    assert_eq!(
        ContractError::AssetMismatch.message(),
        "Given assets don't belong to the pair"
    );

    // check update rate
    assert_eq!(
        er.update_rate([&asset_0, &asset_1], Decimal::from_ratio(2u128, 5u128), 1),
        Ok(())
    );
    assert_eq!(
        er.get_rate([&asset_0, &asset_1]),
        Ok(Decimal::from_ratio(2u128, 5u128))
    );
    assert_eq!(
        er.get_rate([&asset_1, &asset_0]),
        Ok(Decimal::from_ratio(5u128, 2u128))
    );

    // check update rate with zero
    assert_eq!(
        er.update_rate([&asset_0, &asset_1], Decimal::zero(), 1),
        Err(ContractError::InvalidRate)
    );
    assert_eq!(
        ContractError::InvalidRate.message(),
        "Exchange rate must be greater that zero"
    );
}

#[test]
fn cache_rejects_bad_parameters() {
    let asset_0 = AssetInfo::NativeToken {
        denom: String::from("uusd"),
    };
    let asset_1 = AssetInfo::NativeToken {
        denom: String::from("uluna"),
    };
    assert_eq!(
        CachedExchangeRate::new(
            [asset_0.clone(), asset_1.clone()],
            Decimal::zero(),
            1,
            10
        )
        .unwrap_err(),
        ContractError::InvalidRate
    );
    assert_eq!(
        CachedExchangeRate::new(
            [asset_0.clone(), asset_1.clone()],
            Decimal::from_ratio(1u128, 5u128),
            1,
            0
        )
        .unwrap_err(),
        ContractError::InvalidTtl
    );
    let mut er = CachedExchangeRate::new(
        [asset_0, asset_1],
        Decimal::from_ratio(1u128, 5u128),
        1,
        10,
    )
    .unwrap();
    assert_eq!(er.update_btl(0), Err(ContractError::InvalidTtl));
    assert_eq!(er.get_btl(), 10);
}

#[test]
fn expiry_window_boundaries() {
    let asset_0 = AssetInfo::NativeToken {
        denom: String::from("uusd"),
    };
    let asset_1 = AssetInfo::NativeToken {
        denom: String::from("uluna"),
    };
    let er = CachedExchangeRate::new(
        [asset_0, asset_1],
        Decimal::from_ratio(1u128, 5u128),
        10,
        100,
    )
    .unwrap();
    // fresh on every height in [10, 110), expired from 110 on
    assert!(!er.is_expired(10));
    assert!(!er.is_expired(50));
    assert!(!er.is_expired(109));
    assert!(er.is_expired(110));
    assert!(er.is_expired(1_000_000));
    // heights before the observation height count as fresh too
    assert!(!er.is_expired(0));
}

#[test]
fn rate_inversion_round_trip() {
    let asset_0 = AssetInfo::NativeToken {
        denom: String::from("uusd"),
    };
    let asset_1 = AssetInfo::NativeToken {
        denom: String::from("uluna"),
    };
    let er = CachedExchangeRate::new(
        [asset_0.clone(), asset_1.clone()],
        Decimal::from_ratio(1u128, 5u128),
        1,
        10,
    )
    .unwrap();
    let fwd = er.get_rate([&asset_0, &asset_1]).unwrap();
    let rev = er.get_rate([&asset_1, &asset_0]).unwrap();
    // forward and reverse are exact inverses of one another
    assert_eq!(rev, fwd.inv().unwrap());
    assert_eq!(fwd, rev.inv().unwrap());
    assert_eq!(fwd, Decimal::from_ratio(1u128, 5u128));
    assert_eq!(rev, Decimal::from_ratio(5u128, 1u128));

    // a rate whose atomic count does not divide 10^36 round-trips
    // only up to truncation
    let three = Decimal::from_ratio(3u128, 1u128);
    let back = three.inv().unwrap().inv().unwrap();
    assert_eq!(three.inv().unwrap().atomics, 333_333_333_333_333_333);
    assert_eq!(back.atomics, 3_000_000_000_000_000_003);
}
