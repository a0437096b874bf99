use metastable_pool::asset::AssetInfo;
use metastable_pool::decimal::Decimal;
use metastable_pool::error::ContractError;
use metastable_pool::math::{MAX_AMP, MAX_AMP_CHANGE, MIN_AMP_CHANGING_TIME};
use metastable_pool::pair_metastable::MetastablePoolUpdateParams;
use metastable_pool::pool::Pool;

fn uusd() -> AssetInfo {
    AssetInfo::NativeToken {
        denom: String::from("uusd"),
    }
}

fn uluna() -> AssetInfo {
    AssetInfo::NativeToken {
        denom: String::from("uluna"),
    }
}

fn new_pair(now: u64) -> Pool {
    Pool::new(
        [uusd(), uluna()],
        100,
        String::from("provider0000"),
        100,
        Decimal::from_ratio(1u128, 5u128),
        10,
        now,
        Decimal::from_ratio(3u128, 1000u128),
        0,
    )
    .unwrap()
}

#[test]
fn update_pair_config() {
    let t0: u64 = 1000;
    let mut pool = new_pair(t0);

    let params = pool.metastable_config(t0);
    assert_eq!(params.amp, Decimal::from_ratio(100u128, 1u128));
    assert_eq!(params.er_cache_btl, 100u64);
    assert_eq!(params.er_provider_addr, String::from("provider0000"));

    // Start changing amp with incorrect next amp
    let resp = pool
        .update_config(
            &MetastablePoolUpdateParams::StartChangingAmp {
                next_amp: MAX_AMP + 1,
                next_amp_time: t0,
            },
            t0,
        )
        .unwrap_err();
    assert_eq!(
        resp.message(),
        format!(
            "Amp coefficient must be greater than 0 and less than or equal to {}",
            MAX_AMP
        )
    );

    // Start changing amp with big difference between the old and new amp value
    let resp = pool
        .update_config(
            &MetastablePoolUpdateParams::StartChangingAmp {
                next_amp: 100 * MAX_AMP_CHANGE + 1,
                next_amp_time: t0,
            },
            t0,
        )
        .unwrap_err();
    assert_eq!(
        resp.message(),
        format!(
            "The difference between the old and new amp value must not exceed {} times",
            MAX_AMP_CHANGE
        )
    );

    // Start changing amp before the MIN_AMP_CHANGING_TIME has elapsed
    let resp = pool
        .update_config(
            &MetastablePoolUpdateParams::StartChangingAmp {
                next_amp: 250,
                next_amp_time: t0,
            },
            t0,
        )
        .unwrap_err();
    assert_eq!(
        resp.message(),
        format!(
            "Amp coefficient cannot be changed more often than once per {} seconds",
            MIN_AMP_CHANGING_TIME
        )
    );

    // Start increasing amp
    let t1 = t0 + MIN_AMP_CHANGING_TIME;
    pool.update_config(
        &MetastablePoolUpdateParams::StartChangingAmp {
            next_amp: 250,
            next_amp_time: t1 + MIN_AMP_CHANGING_TIME,
        },
        t1,
    )
    .unwrap();

    let halfway = t1 + MIN_AMP_CHANGING_TIME / 2;
    let params = pool.metastable_config(halfway);
    assert_eq!(params.amp, Decimal::from_ratio(175u128, 1u128));

    let done = t1 + MIN_AMP_CHANGING_TIME;
    let params = pool.metastable_config(done);
    assert_eq!(params.amp, Decimal::from_ratio(250u128, 1u128));

    // Start decreasing amp
    let t2 = done + MIN_AMP_CHANGING_TIME;
    pool.update_config(
        &MetastablePoolUpdateParams::StartChangingAmp {
            next_amp: 50,
            next_amp_time: t2 + MIN_AMP_CHANGING_TIME,
        },
        t2,
    )
    .unwrap();

    let halfway = t2 + MIN_AMP_CHANGING_TIME / 2;
    let params = pool.metastable_config(halfway);
    assert_eq!(params.amp, Decimal::from_ratio(150u128, 1u128));

    // Stop changing amp
    pool.update_config(&MetastablePoolUpdateParams::StopChangingAmp {}, halfway)
        .unwrap();

    let later = halfway + MIN_AMP_CHANGING_TIME / 2;
    let params = pool.metastable_config(later);
    assert_eq!(params.amp, Decimal::from_ratio(150u128, 1u128));

    // change rate provider and cache window
    pool.update_config(
        &MetastablePoolUpdateParams::UpdateErCacheBTL { btl: 555 },
        later,
    )
    .unwrap();
    pool.update_config(
        &MetastablePoolUpdateParams::UpdateRateProvider {
            address: String::from("provider0001"),
        },
        later,
    )
    .unwrap();
    let params = pool.metastable_config(later);
    assert_eq!(params.er_cache_btl, 555u64);
    assert_eq!(params.er_provider_addr, String::from("provider0001"));
}

#[test]
fn amp_ramp_guards() {
    // a ramp start after the minimum interval succeeds; repeating it
    // immediately fails with the minimum-interval error; a zero
    // target fails with the bounds error
    let t0: u64 = 1000;
    let mut pool = new_pair(t0);
    let t1 = t0 + MIN_AMP_CHANGING_TIME;
    pool.update_config(
        &MetastablePoolUpdateParams::StartChangingAmp {
            next_amp: 250,
            next_amp_time: t1 + MIN_AMP_CHANGING_TIME,
        },
        t1,
    )
    .unwrap();
    assert_eq!(
        pool.update_config(
            &MetastablePoolUpdateParams::StartChangingAmp {
                next_amp: 250,
                next_amp_time: t1 + 2 * MIN_AMP_CHANGING_TIME,
            },
            t1,
        )
        .unwrap_err(),
        ContractError::MinAmpChangingTimeAssertion
    );
    assert_eq!(
        pool.update_config(
            &MetastablePoolUpdateParams::StartChangingAmp {
                next_amp: 0,
                next_amp_time: t1 + 2 * MIN_AMP_CHANGING_TIME,
            },
            t1,
        )
        .unwrap_err(),
        ContractError::IncorrectAmp
    );
    // an empty cache window is rejected
    assert_eq!(
        pool.update_config(&MetastablePoolUpdateParams::UpdateErCacheBTL { btl: 0 }, t1)
            .unwrap_err(),
        ContractError::InvalidTtl
    );
}
