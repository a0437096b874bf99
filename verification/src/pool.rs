use vstd::prelude::*;

use crate::amp::AmpSchedule;
use crate::asset::AssetInfo;
use crate::cache::CachedExchangeRate;
use crate::decimal::{Decimal, DECIMAL_FRACTIONAL, DECIMAL_FRACTIONAL_SQUARED};
use crate::error::ContractError;
use crate::pair_metastable::{MetastablePoolConfig, MetastablePoolUpdateParams};

verus! {

/// The pool's configuration: the ordered asset pair, the oracle
/// reference, the amplification schedule, the TWAP accumulators and
/// the fee / first-mint parameters.
#[derive(Clone, Debug)]
pub struct Config {
    /// The two pool assets, ordered and distinct.
    pub asset_infos: [AssetInfo; 2],
    /// Address of the exchange-rate provider contract.
    pub er_provider_addr: String,
    /// The amplification ramp.
    pub amp: AmpSchedule,
    /// Timestamp of the last cumulative-price update.
    pub block_time_last: u64,
    /// Time integral of the asset-0 spot price, in atomic units times
    /// seconds.
    pub price0_cumulative_last: u128,
    /// Time integral of the asset-1 spot price, in atomic units times
    /// seconds.
    pub price1_cumulative_last: u128,
    /// Proportional trading commission retained by the pool on the
    /// swap output; strictly below 1.
    pub commission_rate: Decimal,
    /// Share floor permanently locked at the first liquidity
    /// provision, to deter share-price manipulation via a near-empty
    /// pool.
    pub min_liquidity: u128,
}

/// A metastable pool: configuration, cached oracle rate, the two raw
/// balances it owns, and the liquidity-share supply it accounts for.
#[derive(Clone, Debug)]
pub struct Pool {
    pub config: Config,
    /// Last observed oracle rate for `asset_infos[0] ->
    /// asset_infos[1]`, with its staleness window.
    pub er_cache: CachedExchangeRate,
    /// Raw balance of asset 0.
    pub balance0: u128,
    /// Raw balance of asset 1.
    pub balance1: u128,
    /// Total liquidity shares minted, including the locked floor.
    pub total_shares: u128,
}

impl Pool {
    /// Internal consistency: distinct assets, well-formed schedule and
    /// cache, the cache keyed by the pool's own pair, and a commission
    /// strictly below 100%.
    pub open spec fn wf(&self) -> bool {
        &&& !self.config.asset_infos@[0].same_as(&self.config.asset_infos@[1])
        &&& self.config.amp.wf()
        &&& self.er_cache.wf()
        &&& self.er_cache.asset_infos@[0].same_as(&self.config.asset_infos@[0])
        &&& self.er_cache.asset_infos@[1].same_as(&self.config.asset_infos@[1])
        &&& self.config.commission_rate.atomics < DECIMAL_FRACTIONAL
    }

    /// The rate an operation at `height` works with, and the cache it
    /// leaves behind: the cached rate while fresh; after expiry a
    /// supplied oracle rate (rejected if non-positive) which is
    /// stored with the current height, or a hard failure when none
    /// was supplied.
    pub open spec fn spec_resolve_rate(self, height: u64, fresh: Option<Decimal>) -> Result<
        (Decimal, CachedExchangeRate),
        ContractError,
    > {
        if height >= self.er_cache.height + self.er_cache.btl {
            match fresh {
                Option::None => Err(ContractError::StaleExchangeRate),
                Option::Some(rate) => {
                    if rate.atomics == 0 {
                        Err(ContractError::InvalidRate)
                    } else {
                        Ok((rate, CachedExchangeRate { exchange_rate: rate, height, ..self.er_cache }))
                    }
                },
            }
        } else {
            Ok((self.er_cache.exchange_rate, self.er_cache))
        }
    }

    /// The normalized output the curve gives for offering `probe`
    /// units on one side at invariant `d`: the finite-difference
    /// probe behind the spot prices.
    pub open spec fn spec_probe_out(
        amp: u64,
        n_offer: u128,
        n_ask: u128,
        d: u128,
        probe: u128,
    ) -> Result<u128, ContractError> {
        if n_offer + probe > u128::MAX {
            Err(ContractError::Overflow)
        } else {
            match crate::math::spec_compute_y(amp, (n_offer + probe) as u128, d) {
                Err(e) => Err(e),
                Ok(y) => Ok(
                    if n_ask < y {
                        0u128
                    } else {
                        (n_ask - y) as u128
                    },
                ),
            }
        }
    }

    fn probe_out(amp: u64, n_offer: u128, n_ask: u128, d: u128, probe: u128) -> (r: Result<
        u128,
        ContractError,
    >)
        requires
            crate::math::AMP_PRECISION <= amp <= crate::math::MAX_AMP * crate::math::AMP_PRECISION,
        ensures
            r == Self::spec_probe_out(amp, n_offer, n_ask, d, probe),
    {
        let nn: u128 = match n_offer.checked_add(probe) {
            Some(v) => v,
            None => {
                return Err(ContractError::Overflow);
            },
        };
        match crate::math::compute_y(amp, nn, d) {
            Err(e) => Err(e),
            Ok(y) => Ok(
                if n_ask < y {
                    0
                } else {
                    n_ask - y
                },
            ),
        }
    }

    /// `floor(a * b / c)` over the mathematical integers, or
    /// `Overflow` where the split 128-bit evaluation
    /// `(a/c)*b + (a%c)*b/c` would not fit (and on a zero divisor).
    pub open spec fn spec_mul_div(a: int, b: int, c: int) -> Result<u128, ContractError> {
        if c <= 0 || c > u128::MAX {
            Err(ContractError::Overflow)
        } else {
            let q: int = a / c;
            let rm: int = a % c;
            if rm * b > u128::MAX {
                Err(ContractError::Overflow)
            } else if q * b + rm * b / c > u128::MAX {
                Err(ContractError::Overflow)
            } else {
                Ok((a * b / c) as u128)
            }
        }
    }

    /// `floor(a * b / c)` with a double-width-free split evaluation:
    /// `a*b/c == (a/c)*b + (a%c)*b/c` exactly, so only the remainder
    /// product must fit 128 bits.
    fn mul_div(a: u128, b: u128, c: u128) -> (r: Result<u128, ContractError>)
        requires
            0 < c,
        ensures
            r == Self::spec_mul_div(a as int, b as int, c as int),
    {
        let q: u128 = a / c;
        let rm: u128 = a % c;
        let part: u128 = match rm.checked_mul(b) {
            Some(v) => v,
            None => {
                return Err(ContractError::Overflow);
            },
        };
        let qb: u128 = match q.checked_mul(b) {
            Some(v) => v,
            None => {
                return Err(ContractError::Overflow);
            },
        };
        let sum: u128 = match qb.checked_add(part / c) {
            Some(v) => v,
            None => {
                return Err(ContractError::Overflow);
            },
        };
        proof {
            vstd::arithmetic::div_mod::lemma_fundamental_div_mod(a as int, c as int);
            vstd::arithmetic::div_mod::lemma_hoist_over_denominator(
                rm as int * b as int,
                q as int * b as int,
                c as nat,
            );
            assert(rm as int * b as int + (q as int * b as int) * c as int == a as int * b as int)
                by (nonlinear_arith)
                requires
                    a as int == c as int * (q as int) + rm as int,
            ;
        }
        Ok(sum)
    }

    /// The TWAP accumulators after advancing them to `now`: each
    /// cumulative price grows by `spot_price * (now -
    /// block_time_last)` computed from the pre-mutation balances and
    /// the rate that prevailed (the cached one); a repeated timestamp
    /// accumulates nothing, so operations in one block never
    /// double-accumulate. The spot prices are curve prices: a 0.1%
    /// probe trade is priced on the rate-normalized balances at the
    /// current amplification, and the resulting normalized ratio is
    /// scaled by the rate (respectively its extended-precision
    /// inverse) back into raw units of the other asset, in atomics.
    /// While either side is empty there is no curve price and only
    /// the timestamp advances.
    #[verifier::opaque]
    pub open spec fn spec_accumulate(p: Pool, now: u64) -> Result<(u64, u128, u128), ContractError> {
        let cfg = p.config;
        if now <= cfg.block_time_last {
            Ok((cfg.block_time_last, cfg.price0_cumulative_last, cfg.price1_cumulative_last))
        } else {
            let rate = p.er_cache.exchange_rate;
            match rate.spec_mul_floor(p.balance0) {
                Option::None => Err(ContractError::Overflow),
                Option::Some(n0) => {
                    let n1 = p.balance1;
                    if n0 == 0 || n1 == 0 {
                        Ok((now, cfg.price0_cumulative_last, cfg.price1_cumulative_last))
                    } else {
                        let amp: u64 = cfg.amp.spec_current_amp(now) as u64;
                        match crate::math::spec_compute_d(amp, n0, n1) {
                            Err(e) => Err(e),
                            Ok(d) => {
                                let probe0: u128 = (n0 / 1000 + 1) as u128;
                                let probe1: u128 = (n1 / 1000 + 1) as u128;
                                match Self::spec_probe_out(amp, n0, n1, d, probe0) {
                                    Err(e) => Err(e),
                                    Ok(out0) => {
                                        match Self::spec_probe_out(amp, n1, n0, d, probe1) {
                                            Err(e) => Err(e),
                                            Ok(out1) => Self::spec_accumulate_tail(
                                                cfg,
                                                rate,
                                                now,
                                                probe0,
                                                probe1,
                                                out0,
                                                out1,
                                            ),
                                        }
                                    },
                                }
                            },
                        }
                    }
                },
            }
        }
    }

    /// The price arithmetic of `spec_accumulate`, from the probe
    /// outputs: curve factors `out/probe` at 18 digits, scaled by the
    /// rate and its inverse into raw-unit spot prices, integrated
    /// over the elapsed time.
    pub open spec fn spec_accumulate_tail(
        cfg: Config,
        rate: Decimal,
        now: u64,
        probe0: u128,
        probe1: u128,
        out0: u128,
        out1: u128,
    ) -> Result<(u64, u128, u128), ContractError> {
        if out0 * DECIMAL_FRACTIONAL > u128::MAX || out1 * DECIMAL_FRACTIONAL > u128::MAX {
            Err(ContractError::Overflow)
        } else {
            let cf0: int = out0 * DECIMAL_FRACTIONAL / (probe0 as int);
            let cf1: int = out1 * DECIMAL_FRACTIONAL / (probe1 as int);
            let inv_rate: int = DECIMAL_FRACTIONAL_SQUARED as int / (rate.atomics as int);
            if cf0 * rate.atomics > u128::MAX || cf1 * inv_rate > u128::MAX {
                Err(ContractError::Overflow)
            } else {
                let p0: int = cf0 * rate.atomics / (DECIMAL_FRACTIONAL as int);
                let p1: int = cf1 * inv_rate / (DECIMAL_FRACTIONAL as int);
                let dt: int = now - cfg.block_time_last;
                if dt * p0 > u128::MAX {
                    Err(ContractError::Overflow)
                } else if cfg.price0_cumulative_last + dt * p0 > u128::MAX {
                    Err(ContractError::Overflow)
                } else if dt * p1 > u128::MAX {
                    Err(ContractError::Overflow)
                } else if cfg.price1_cumulative_last + dt * p1 > u128::MAX {
                    Err(ContractError::Overflow)
                } else {
                    Ok(
                        (
                            now,
                            (cfg.price0_cumulative_last + dt * p0) as u128,
                            (cfg.price1_cumulative_last + dt * p1) as u128,
                        ),
                    )
                }
            }
        }
    }

    /// Advances the accumulators to `now` without committing them:
    /// returns the new `(block_time_last, price0, price1)` triple.
    fn accumulate_prices(&self, now: u64) -> (r: Result<(u64, u128, u128), ContractError>)
        requires
            self.wf(),
        ensures
            r == Self::spec_accumulate(*self, now),
    {
        proof {
            reveal(Pool::spec_accumulate);
        }
        if now <= self.config.block_time_last {
            return Ok(
                (
                    self.config.block_time_last,
                    self.config.price0_cumulative_last,
                    self.config.price1_cumulative_last,
                ),
            );
        }
        let rate: Decimal = self.er_cache.exchange_rate;
        let n0: u128 = match rate.mul_floor(self.balance0) {
            Some(v) => v,
            None => {
                return Err(ContractError::Overflow);
            },
        };
        let n1: u128 = self.balance1;
        if n0 == 0 || n1 == 0 {
            return Ok(
                (now, self.config.price0_cumulative_last, self.config.price1_cumulative_last),
            );
        }
        proof {
            crate::amp::lemma_current_amp_bounds(self.config.amp, now);
        }
        let amp: u64 = self.config.amp.current_amp(now);
        let d: u128 = match crate::math::compute_d(amp, n0, n1) {
            Ok(v) => v,
            Err(e) => {
                return Err(e);
            },
        };
        let probe0: u128 = n0 / 1000 + 1;
        let probe1: u128 = n1 / 1000 + 1;
        let out0: u128 = match Self::probe_out(amp, n0, n1, d, probe0) {
            Ok(v) => v,
            Err(e) => {
                return Err(e);
            },
        };
        let out1: u128 = match Self::probe_out(amp, n1, n0, d, probe1) {
            Ok(v) => v,
            Err(e) => {
                return Err(e);
            },
        };
        let s0: u128 = match out0.checked_mul(DECIMAL_FRACTIONAL) {
            Some(v) => v,
            None => {
                return Err(ContractError::Overflow);
            },
        };
        let s1: u128 = match out1.checked_mul(DECIMAL_FRACTIONAL) {
            Some(v) => v,
            None => {
                return Err(ContractError::Overflow);
            },
        };
        let cf0: u128 = s0 / probe0;
        let cf1: u128 = s1 / probe1;
        let inv_rate: u128 = DECIMAL_FRACTIONAL_SQUARED / rate.atomics;
        let t0: u128 = match cf0.checked_mul(rate.atomics) {
            Some(v) => v,
            None => {
                return Err(ContractError::Overflow);
            },
        };
        let t1: u128 = match cf1.checked_mul(inv_rate) {
            Some(v) => v,
            None => {
                return Err(ContractError::Overflow);
            },
        };
        let p0: u128 = t0 / DECIMAL_FRACTIONAL;
        let p1: u128 = t1 / DECIMAL_FRACTIONAL;
        let dt: u64 = now - self.config.block_time_last;
        let d0: u128 = match (dt as u128).checked_mul(p0) {
            Some(v) => v,
            None => {
                return Err(ContractError::Overflow);
            },
        };
        let a0: u128 = match self.config.price0_cumulative_last.checked_add(d0) {
            Some(v) => v,
            None => {
                return Err(ContractError::Overflow);
            },
        };
        let d1: u128 = match (dt as u128).checked_mul(p1) {
            Some(v) => v,
            None => {
                return Err(ContractError::Overflow);
            },
        };
        let a1: u128 = match self.config.price1_cumulative_last.checked_add(d1) {
            Some(v) => v,
            None => {
                return Err(ContractError::Overflow);
            },
        };
        Ok((now, a0, a1))
    }

    /// The configuration error `new` rejects the given parameters
    /// with, if any.
    pub open spec fn spec_new_err(
        asset_infos: [AssetInfo; 2],
        amp: u64,
        exchange_rate: Decimal,
        er_cache_btl: u64,
    ) -> Option<ContractError> {
        if asset_infos@[0].same_as(&asset_infos@[1]) {
            Option::Some(ContractError::DoublingAssets)
        } else if amp == 0 || amp > crate::math::MAX_AMP {
            Option::Some(ContractError::IncorrectAmp)
        } else if exchange_rate.atomics == 0 {
            Option::Some(ContractError::InvalidRate)
        } else if er_cache_btl == 0 {
            Option::Some(ContractError::InvalidTtl)
        } else {
            Option::None
        }
    }

    /// Creates a pool over a distinct ordered asset pair, with a flat
    /// amplification schedule at `amp` (unscaled), an initial oracle
    /// rate observed at `height`, empty balances and no shares.
    pub fn new(
        asset_infos: [AssetInfo; 2],
        amp: u64,
        er_provider_addr: String,
        er_cache_btl: u64,
        exchange_rate: Decimal,
        height: u64,
        now: u64,
        commission_rate: Decimal,
        min_liquidity: u128,
    ) -> (r: Result<Pool, ContractError>)
        requires
            commission_rate.atomics < DECIMAL_FRACTIONAL,
        ensures
            match Self::spec_new_err(asset_infos, amp, exchange_rate, er_cache_btl) {
                Option::Some(e) => r == Err::<Pool, ContractError>(e),
                Option::None => ({
                    &&& r matches Ok(p)
                    &&& p.wf()
                    &&& p.config.asset_infos@ == asset_infos@
                    &&& p.config.er_provider_addr@ == er_provider_addr@
                    &&& p.config.amp == (AmpSchedule {
                        init_amp: (amp * crate::math::AMP_PRECISION) as u64,
                        init_amp_time: now,
                        next_amp: (amp * crate::math::AMP_PRECISION) as u64,
                        next_amp_time: now,
                    })
                    &&& p.config.block_time_last == now
                    &&& p.config.price0_cumulative_last == 0
                    &&& p.config.price1_cumulative_last == 0
                    &&& p.config.commission_rate == commission_rate
                    &&& p.config.min_liquidity == min_liquidity
                    &&& p.er_cache.asset_infos@ == asset_infos@
                    &&& p.er_cache.exchange_rate == exchange_rate
                    &&& p.er_cache.height == height
                    &&& p.er_cache.btl == er_cache_btl
                    &&& p.balance0 == 0
                    &&& p.balance1 == 0
                    &&& p.total_shares == 0
                }),
            },
    {
        if asset_infos[0].equal(&asset_infos[1]) {
            return Err(ContractError::DoublingAssets);
        }
        if amp == 0 || amp > crate::math::MAX_AMP {
            return Err(ContractError::IncorrectAmp);
        }
        if exchange_rate.is_zero() {
            return Err(ContractError::InvalidRate);
        }
        if er_cache_btl == 0 {
            return Err(ContractError::InvalidTtl);
        }
        let cache_assets: [AssetInfo; 2] = [asset_infos[0].duplicate(), asset_infos[1].duplicate()];
        proof {
            assert(cache_assets@ =~= asset_infos@);
        }
        let amp_scaled: u64 = amp * crate::math::AMP_PRECISION;
        Ok(
            Pool {
                config: Config {
                    asset_infos,
                    er_provider_addr,
                    amp: AmpSchedule {
                        init_amp: amp_scaled,
                        init_amp_time: now,
                        next_amp: amp_scaled,
                        next_amp_time: now,
                    },
                    block_time_last: now,
                    price0_cumulative_last: 0,
                    price1_cumulative_last: 0,
                    commission_rate,
                    min_liquidity,
                },
                er_cache: CachedExchangeRate {
                    asset_infos: cache_assets,
                    exchange_rate,
                    height,
                    btl: er_cache_btl,
                },
                balance0: 0,
                balance1: 0,
                total_shares: 0,
            },
        )
    }

    /// The minting tail of `spec_provide`, from the invariant before
    /// and after the deposit: the first provider receives
    /// `D_after - min_liquidity` (the floor stays locked inside the
    /// total), later providers receive shares in proportion to the
    /// invariant's growth, `total * (D_after - D_before) / D_before`.
    /// A provision minting nothing is rejected, as is one minting
    /// less than the supplied tolerance allows below the value of a
    /// deposit at the current spot ratio.
    pub open spec fn spec_provide_mint(
        p: Pool,
        cache1: CachedExchangeRate,
        nb0: u128,
        nb1: u128,
        n0: u128,
        m0: u128,
        d_before: u128,
        d_after: u128,
        slippage_tolerance: Option<Decimal>,
        now: u64,
    ) -> Result<(Pool, u128), ContractError> {
        if p.total_shares == 0 {
            if d_after <= p.config.min_liquidity {
                Err(ContractError::LiquidityAmountTooSmall)
            } else {
                let minted: u128 = (d_after - p.config.min_liquidity) as u128;
                Self::spec_provide_commit(p, cache1, nb0, nb1, d_after, minted, now)
            }
        } else {
            if d_after <= d_before {
                Err(ContractError::LiquidityAmountTooSmall)
            } else if d_before == 0 {
                Err(ContractError::Overflow)
            } else if p.total_shares * (d_after - d_before) > u128::MAX {
                Err(ContractError::Overflow)
            } else {
                let minted: int = p.total_shares * (d_after - d_before) / (d_before as int);
                if minted == 0 {
                    Err(ContractError::LiquidityAmountTooSmall)
                } else {
                    match Self::spec_slippage_err(
                        p,
                        slippage_tolerance,
                        n0,
                        m0,
                        nb1,
                        minted,
                    ) {
                        Option::Some(e) => Err(e),
                        Option::None => {
                            if p.total_shares + minted > u128::MAX {
                                Err(ContractError::Overflow)
                            } else {
                                Self::spec_provide_commit(
                                    p,
                                    cache1,
                                    nb0,
                                    nb1,
                                    (p.total_shares + minted) as u128,
                                    minted as u128,
                                    now,
                                )
                            }
                        },
                    }
                }
            }
        }
    }

    /// The slippage guard of a non-initial provision: the minted
    /// shares may fall at most `tolerance` short of the shares a
    /// deposit of the same normalized value would mint at the current
    /// spot ratio, `ideal = total * deposit_value / pool_value`.
    pub open spec fn spec_slippage_err(
        p: Pool,
        slippage_tolerance: Option<Decimal>,
        n0: u128,
        m0: u128,
        nb1: u128,
        minted: int,
    ) -> Option<ContractError> {
        match slippage_tolerance {
            Option::None => Option::None,
            Option::Some(tol) => {
                let dep_norm: int = (m0 - n0) + (nb1 - p.balance1);
                let pool_norm: int = n0 + p.balance1;
                match Self::spec_mul_div(p.total_shares as int, dep_norm, pool_norm) {
                    Err(e) => Option::Some(e),
                    Ok(ideal) => {
                        if tol.atomics * ideal > u128::MAX {
                            Option::Some(ContractError::Overflow)
                        } else {
                            let cut: int = tol.atomics * ideal / (DECIMAL_FRACTIONAL as int);
                            let floor_: int = if cut >= ideal {
                                0
                            } else {
                                ideal as int - cut
                            };
                            if minted < floor_ {
                                Option::Some(ContractError::AllowedSpreadAssertion)
                            } else {
                                Option::None
                            }
                        }
                    },
                }
            },
        }
    }

    /// The committed state of a successful provision: new balances,
    /// refreshed cache, advanced accumulators, new share total.
    pub open spec fn spec_provide_commit(
        p: Pool,
        cache1: CachedExchangeRate,
        nb0: u128,
        nb1: u128,
        new_total: u128,
        minted: u128,
        now: u64,
    ) -> Result<(Pool, u128), ContractError> {
        match Self::spec_accumulate(p, now) {
            Err(e) => Err(e),
            Ok((t, a0, a1)) => Ok(
                (
                    Pool {
                        config: Config {
                            block_time_last: t,
                            price0_cumulative_last: a0,
                            price1_cumulative_last: a1,
                            ..p.config
                        },
                        er_cache: cache1,
                        balance0: nb0,
                        balance1: nb1,
                        total_shares: new_total,
                    },
                    minted,
                ),
            ),
        }
    }

    /// The result of `provide_liquidity`: resolves the working rate,
    /// rejects an empty deposit on either side, normalizes the old
    /// and new balances by the rate, computes the invariant before
    /// (zero for an empty pool) and after the deposit, and mints
    /// shares as `spec_provide_mint` says.
    pub open spec fn spec_provide(
        p: Pool,
        amount0: u128,
        amount1: u128,
        slippage_tolerance: Option<Decimal>,
        fresh: Option<Decimal>,
        height: u64,
        now: u64,
    ) -> Result<(Pool, u128), ContractError> {
        match p.spec_resolve_rate(height, fresh) {
            Err(e) => Err(e),
            Ok((rate, cache1)) => {
                if amount0 == 0 || amount1 == 0 {
                    Err(ContractError::InvalidZeroAmount)
                } else {
                    let amp: u64 = p.config.amp.spec_current_amp(now) as u64;
                    match rate.spec_mul_floor(p.balance0) {
                        Option::None => Err(ContractError::Overflow),
                        Option::Some(n0) => {
                            let before: Result<u128, ContractError> = if p.total_shares == 0 {
                                Ok(0u128)
                            } else {
                                crate::math::spec_compute_d(amp, n0, p.balance1)
                            };
                            match before {
                                Err(e) => Err(e),
                                Ok(d_before) => {
                                    if p.balance0 + amount0 > u128::MAX || p.balance1 + amount1
                                        > u128::MAX {
                                        Err(ContractError::Overflow)
                                    } else {
                                        let nb0: u128 = (p.balance0 + amount0) as u128;
                                        let nb1: u128 = (p.balance1 + amount1) as u128;
                                        match rate.spec_mul_floor(nb0) {
                                            Option::None => Err(ContractError::Overflow),
                                            Option::Some(m0) => {
                                                match crate::math::spec_compute_d(amp, m0, nb1) {
                                                    Err(e) => Err(e),
                                                    Ok(d_after) => Self::spec_provide_mint(
                                                        p,
                                                        cache1,
                                                        nb0,
                                                        nb1,
                                                        n0,
                                                        m0,
                                                        d_before,
                                                        d_after,
                                                        slippage_tolerance,
                                                        now,
                                                    ),
                                                }
                                            },
                                        }
                                    }
                                },
                            }
                        },
                    }
                }
            },
        }
    }

    /// Deposits `amount0` and `amount1` of the two assets and mints
    /// liquidity shares proportional to the invariant's growth (never
    /// to raw balances). The first provision mints `D - min_liquidity`
    /// and locks the floor permanently. On any error the pool is
    /// unchanged; a stale cache is refreshed from `fresh_rate`.
    pub fn provide_liquidity(
        &mut self,
        amount0: u128,
        amount1: u128,
        slippage_tolerance: Option<Decimal>,
        fresh_rate: Option<Decimal>,
        height: u64,
        now: u64,
    ) -> (r: Result<u128, ContractError>)
        requires
            old(self).wf(),
        ensures
            match Self::spec_provide(
                *old(self),
                amount0,
                amount1,
                slippage_tolerance,
                fresh_rate,
                height,
                now,
            ) {
                Ok((p, minted)) => r == Ok::<u128, ContractError>(minted) && *final(self) == p,
                Err(e) => r == Err::<u128, ContractError>(e) && *final(self) == *old(self),
            },
            final(self).wf(),
    {
        let expired: bool = self.er_cache.is_expired(height);
        let rate: Decimal = if expired {
            match fresh_rate {
                Option::None => {
                    return Err(ContractError::StaleExchangeRate);
                },
                Option::Some(f) => {
                    if f.is_zero() {
                        return Err(ContractError::InvalidRate);
                    }
                    f
                },
            }
        } else {
            self.er_cache.exchange_rate
        };
        if amount0 == 0 || amount1 == 0 {
            return Err(ContractError::InvalidZeroAmount);
        }
        proof {
            crate::amp::lemma_current_amp_bounds(self.config.amp, now);
        }
        let amp: u64 = self.config.amp.current_amp(now);
        let n0: u128 = match rate.mul_floor(self.balance0) {
            Some(v) => v,
            None => {
                return Err(ContractError::Overflow);
            },
        };
        let d_before: u128 = if self.total_shares == 0 {
            0
        } else {
            match crate::math::compute_d(amp, n0, self.balance1) {
                Ok(v) => v,
                Err(e) => {
                    return Err(e);
                },
            }
        };
        let nb0: u128 = match self.balance0.checked_add(amount0) {
            Some(v) => v,
            None => {
                return Err(ContractError::Overflow);
            },
        };
        let nb1: u128 = match self.balance1.checked_add(amount1) {
            Some(v) => v,
            None => {
                return Err(ContractError::Overflow);
            },
        };
        let m0: u128 = match rate.mul_floor(nb0) {
            Some(v) => v,
            None => {
                return Err(ContractError::Overflow);
            },
        };
        let d_after: u128 = match crate::math::compute_d(amp, m0, nb1) {
            Ok(v) => v,
            Err(e) => {
                return Err(e);
            },
        };
        let minted: u128 = if self.total_shares == 0 {
            if d_after <= self.config.min_liquidity {
                return Err(ContractError::LiquidityAmountTooSmall);
            }
            d_after - self.config.min_liquidity
        } else {
            if d_after <= d_before {
                return Err(ContractError::LiquidityAmountTooSmall);
            }
            if d_before == 0 {
                return Err(ContractError::Overflow);
            }
            let grown: u128 = match self.total_shares.checked_mul(d_after - d_before) {
                Some(v) => v,
                None => {
                    return Err(ContractError::Overflow);
                },
            };
            let m: u128 = grown / d_before;
            if m == 0 {
                return Err(ContractError::LiquidityAmountTooSmall);
            }
            if let Option::Some(tol) = slippage_tolerance {
                proof {
                    crate::math::lemma_mul_div_monotone(
                        rate.atomics as int,
                        self.balance0 as int,
                        nb0 as int,
                        DECIMAL_FRACTIONAL as int,
                    );
                    assert(rate.atomics * self.balance0 == self.balance0 * rate.atomics)
                        by (nonlinear_arith);
                    assert(rate.atomics * nb0 == nb0 * rate.atomics) by (nonlinear_arith);
                }
                let dep0: u128 = m0 - n0;
                let dep_norm: u128 = match dep0.checked_add(amount1) {
                    Some(v) => v,
                    None => {
                        // a deposit too large for 128 bits fails the
                        // model's split product as well
                        proof {
                            lemma_mul_div_overflow(
                                self.total_shares as int,
                                (m0 - n0) + (nb1 - self.balance1),
                                n0 + self.balance1,
                            );
                        }
                        return Err(ContractError::Overflow);
                    },
                };
                let pool_norm: u128 = match n0.checked_add(self.balance1) {
                    Some(v) => v,
                    None => {
                        return Err(ContractError::Overflow);
                    },
                };
                // a positive pre-deposit invariant rules out an empty
                // normalized pool
                proof {
                    assert(pool_norm > 0);
                }
                let ideal: u128 = match Self::mul_div(self.total_shares, dep_norm, pool_norm) {
                    Ok(v) => v,
                    Err(e) => {
                        return Err(e);
                    },
                };
                let tolscaled: u128 = match tol.atomics.checked_mul(ideal) {
                    Some(v) => v,
                    None => {
                        return Err(ContractError::Overflow);
                    },
                };
                let cut: u128 = tolscaled / DECIMAL_FRACTIONAL;
                let floor_: u128 = if cut >= ideal {
                    0
                } else {
                    ideal - cut
                };
                if m < floor_ {
                    return Err(ContractError::AllowedSpreadAssertion);
                }
            }
            m
        };
        let new_total: u128 = if self.total_shares == 0 {
            d_after
        } else {
            match self.total_shares.checked_add(minted) {
                Some(v) => v,
                None => {
                    return Err(ContractError::Overflow);
                },
            }
        };
        let (t, a0, a1) = match self.accumulate_prices(now) {
            Ok(v) => v,
            Err(e) => {
                return Err(e);
            },
        };
        self.config.block_time_last = t;
        self.config.price0_cumulative_last = a0;
        self.config.price1_cumulative_last = a1;
        if expired {
            self.er_cache.exchange_rate = rate;
            self.er_cache.height = height;
        }
        self.balance0 = nb0;
        self.balance1 = nb1;
        self.total_shares = new_total;
        Ok(minted)
    }

    /// The result of `withdraw_liquidity`: burning `share_amount`
    /// against the total returns each asset pro rata,
    /// `balance_i * share_amount / total_shares` truncated, after the
    /// accumulators advance at the cached rate; a zero amount is
    /// rejected before any state change.
    pub open spec fn spec_withdraw(p: Pool, share_amount: u128, now: u64) -> Result<
        (Pool, u128, u128),
        ContractError,
    > {
        if share_amount == 0 {
            Err(ContractError::InvalidZeroAmount)
        } else if share_amount == p.total_shares {
            // burning every share returns every balance, at any scale
            match Self::spec_accumulate(p, now) {
                Err(e) => Err(e),
                Ok((t, a0, a1)) => Ok(
                    (
                        Pool {
                            config: Config {
                                block_time_last: t,
                                price0_cumulative_last: a0,
                                price1_cumulative_last: a1,
                                ..p.config
                            },
                            er_cache: p.er_cache,
                            balance0: 0,
                            balance1: 0,
                            total_shares: 0,
                        },
                        p.balance0,
                        p.balance1,
                    ),
                ),
            }
        } else {
            match Self::spec_mul_div(
                p.balance0 as int,
                share_amount as int,
                p.total_shares as int,
            ) {
                Err(e) => Err(e),
                Ok(r0) => {
                    match Self::spec_mul_div(
                        p.balance1 as int,
                        share_amount as int,
                        p.total_shares as int,
                    ) {
                        Err(e) => Err(e),
                        Ok(r1) => {
                            match Self::spec_accumulate(p, now) {
                                Err(e) => Err(e),
                                Ok((t, a0, a1)) => Ok(
                                    (
                                        Pool {
                                            config: Config {
                                                block_time_last: t,
                                                price0_cumulative_last: a0,
                                                price1_cumulative_last: a1,
                                                ..p.config
                                            },
                                            er_cache: p.er_cache,
                                            balance0: (p.balance0 - r0) as u128,
                                            balance1: (p.balance1 - r1) as u128,
                                            total_shares: (p.total_shares - share_amount) as u128,
                                        },
                                        r0,
                                        r1,
                                    ),
                                ),
                            }
                        },
                    }
                },
            }
        }
    }

    /// Burns `share_amount` shares and returns the pro-rata pair of
    /// raw refund amounts. Pro-rata withdrawal keeps the per-share
    /// invariant value, so no invariant recomputation is involved; on
    /// any error the pool is unchanged.
    pub fn withdraw_liquidity(&mut self, share_amount: u128, now: u64) -> (r: Result<
        (u128, u128),
        ContractError,
    >)
        requires
            old(self).wf(),
            share_amount <= old(self).total_shares,
        ensures
            match Self::spec_withdraw(*old(self), share_amount, now) {
                Ok((p, r0, r1)) => r == Ok::<_, ContractError>((r0, r1)) && *final(self) == p,
                Err(e) => r == Err::<(u128, u128), _>(e) && *final(self) == *old(self),
            },
            final(self).wf(),
    {
        if share_amount == 0 {
            return Err(ContractError::InvalidZeroAmount);
        }
        if share_amount == self.total_shares {
            let (t, a0, a1) = match self.accumulate_prices(now) {
                Ok(v) => v,
                Err(e) => {
                    return Err(e);
                },
            };
            let refund0: u128 = self.balance0;
            let refund1: u128 = self.balance1;
            self.config.block_time_last = t;
            self.config.price0_cumulative_last = a0;
            self.config.price1_cumulative_last = a1;
            self.balance0 = 0;
            self.balance1 = 0;
            self.total_shares = 0;
            return Ok((refund0, refund1));
        }
        let refund0: u128 = match Self::mul_div(self.balance0, share_amount, self.total_shares) {
            Ok(v) => v,
            Err(e) => {
                return Err(e);
            },
        };
        let refund1: u128 = match Self::mul_div(self.balance1, share_amount, self.total_shares) {
            Ok(v) => v,
            Err(e) => {
                return Err(e);
            },
        };
        proof {
            crate::math::lemma_mul_div_bounds(
                self.balance0 as int,
                share_amount as int,
                self.total_shares as int,
            );
            crate::math::lemma_mul_div_bounds(
                self.balance1 as int,
                share_amount as int,
                self.total_shares as int,
            );
        }
        let (t, a0, a1) = match self.accumulate_prices(now) {
            Ok(v) => v,
            Err(e) => {
                return Err(e);
            },
        };
        self.config.block_time_last = t;
        self.config.price0_cumulative_last = a0;
        self.config.price1_cumulative_last = a1;
        self.balance0 = self.balance0 - refund0;
        self.balance1 = self.balance1 - refund1;
        self.total_shares = self.total_shares - share_amount;
        Ok((refund0, refund1))
    }
}

/// What a swap returns to the trader: the raw output after
/// commission, the spread against a 1:1 rate-adjusted exchange, and
/// the commission retained by the pool.
#[derive(Clone, Copy, Debug, PartialEq, Eq, Structural)]
pub struct SwapResult {
    pub return_amount: u128,
    pub spread_amount: u128,
    pub commission_amount: u128,
}

/// Staged effects of a swap, computed without touching the pool.
struct SwapPlan {
    cache_rate: Decimal,
    cache_height: u64,
    nb0: u128,
    nb1: u128,
    t: u64,
    a0: u128,
    a1: u128,
    result: SwapResult,
}

impl Pool {
    /// The economic guards of a swap: the spread may not exceed the
    /// `max_spread` share of the rate-implied output, and, when a
    /// belief price is supplied, the realized offer-per-output price
    /// (before commission) may not exceed it.
    pub open spec fn spec_belief_err(
        ret_raw: u128,
        offer_amount: u128,
        belief_price: Option<Decimal>,
    ) -> Option<ContractError> {
        match belief_price {
            Option::None => Option::None,
            Option::Some(bp) => {
                if ret_raw == 0 {
                    Option::Some(ContractError::MaxSlippageAssertion)
                } else if offer_amount * DECIMAL_FRACTIONAL > u128::MAX {
                    Option::Some(ContractError::Overflow)
                } else if offer_amount * DECIMAL_FRACTIONAL / (ret_raw as int) > bp.atomics {
                    Option::Some(ContractError::MaxSlippageAssertion)
                } else {
                    Option::None
                }
            },
        }
    }

    /// See `spec_belief_err`; the spread guard, checked first.
    pub open spec fn spec_guards_err(
        exp_raw: u128,
        spread: u128,
        ret_raw: u128,
        offer_amount: u128,
        belief_price: Option<Decimal>,
        max_spread: Option<Decimal>,
    ) -> Option<ContractError> {
        match max_spread {
            Option::None => Self::spec_belief_err(ret_raw, offer_amount, belief_price),
            Option::Some(ms) => {
                if exp_raw > 0 {
                    if spread * DECIMAL_FRACTIONAL > u128::MAX {
                        Option::Some(ContractError::Overflow)
                    } else if spread * DECIMAL_FRACTIONAL / (exp_raw as int) > ms.atomics {
                        Option::Some(ContractError::MaxSpreadAssertion)
                    } else {
                        Self::spec_belief_err(ret_raw, offer_amount, belief_price)
                    }
                } else {
                    Self::spec_belief_err(ret_raw, offer_amount, belief_price)
                }
            },
        }
    }

    /// The settlement tail of `spec_swap`: commission, guards, the
    /// new balances (the commission stays in the pool), and the
    /// advanced accumulators.
    pub open spec fn spec_swap_settle(
        p: Pool,
        cache1: CachedExchangeRate,
        offer0: bool,
        offer_amount: u128,
        ret_raw: u128,
        exp_raw: u128,
        belief_price: Option<Decimal>,
        max_spread: Option<Decimal>,
        now: u64,
    ) -> Result<(Pool, SwapResult), ContractError> {
        let spread: u128 = if exp_raw >= ret_raw {
            (exp_raw - ret_raw) as u128
        } else {
            0u128
        };
        if p.config.commission_rate.atomics * ret_raw > u128::MAX {
            Err(ContractError::Overflow)
        } else {
            let commission: int = p.config.commission_rate.atomics * ret_raw / (
            DECIMAL_FRACTIONAL as int);
            let ret_after: int = ret_raw - commission;
            match Self::spec_guards_err(
                exp_raw,
                spread,
                ret_raw,
                offer_amount,
                belief_price,
                max_spread,
            ) {
                Option::Some(e) => Err(e),
                Option::None => {
                    let b_off_old: u128 = if offer0 {
                        p.balance0
                    } else {
                        p.balance1
                    };
                    let b_ask_old: u128 = if offer0 {
                        p.balance1
                    } else {
                        p.balance0
                    };
                    if b_off_old + offer_amount > u128::MAX {
                        Err(ContractError::Overflow)
                    } else if b_ask_old < ret_after {
                        Err(ContractError::Overflow)
                    } else {
                        let nb0: u128 = if offer0 {
                            (b_off_old + offer_amount) as u128
                        } else {
                            (b_ask_old - ret_after) as u128
                        };
                        let nb1: u128 = if offer0 {
                            (b_ask_old - ret_after) as u128
                        } else {
                            (b_off_old + offer_amount) as u128
                        };
                        match Self::spec_accumulate(p, now) {
                            Err(e) => Err(e),
                            Ok((t, a0, a1)) => Ok(
                                (
                                    Pool {
                                        config: Config {
                                            block_time_last: t,
                                            price0_cumulative_last: a0,
                                            price1_cumulative_last: a1,
                                            ..p.config
                                        },
                                        er_cache: cache1,
                                        balance0: nb0,
                                        balance1: nb1,
                                        total_shares: p.total_shares,
                                    },
                                    SwapResult {
                                        return_amount: ret_after as u128,
                                        spread_amount: spread,
                                        commission_amount: commission as u128,
                                    },
                                ),
                            ),
                        }
                    }
                },
            }
        }
    }

    /// The result of `swap` (and the answer of `simulation`): the
    /// offer side is identified (or the swap rejected with
    /// `AssetMismatch`), balances are normalized into asset-1 units
    /// by the working rate, the invariant `D` is computed from the
    /// pre-swap balances, the new ask-side balance is solved for, and
    /// the output is converted back to raw units. The spread is the
    /// shortfall of the raw output below the output a 1:1
    /// rate-adjusted exchange would imply.
    pub open spec fn spec_swap(
        p: Pool,
        offer_asset: &AssetInfo,
        offer_amount: u128,
        belief_price: Option<Decimal>,
        max_spread: Option<Decimal>,
        fresh: Option<Decimal>,
        height: u64,
        now: u64,
    ) -> Result<(Pool, SwapResult), ContractError> {
        match p.spec_resolve_rate(height, fresh) {
            Err(e) => Err(e),
            Ok((rate, cache1)) => {
                if !offer_asset.same_as(&p.config.asset_infos@[0]) && !offer_asset.same_as(
                    &p.config.asset_infos@[1],
                ) {
                    Err(ContractError::AssetMismatch)
                } else if offer_amount == 0 {
                    Err(ContractError::InvalidZeroAmount)
                } else {
                    let offer0: bool = offer_asset.same_as(&p.config.asset_infos@[0]);
                    let amp: u64 = p.config.amp.spec_current_amp(now) as u64;
                    match rate.spec_mul_floor(p.balance0) {
                        Option::None => Err(ContractError::Overflow),
                        Option::Some(n0) => {
                            match crate::math::spec_compute_d(amp, n0, p.balance1) {
                                Err(e) => Err(e),
                                Ok(d) => {
                                    let off_norm_r: Option<u128> = if offer0 {
                                        rate.spec_mul_floor(offer_amount)
                                    } else {
                                        Option::Some(offer_amount)
                                    };
                                    match off_norm_r {
                                        Option::None => Err(ContractError::Overflow),
                                        Option::Some(off_norm) => {
                                            let n_offer: u128 = if offer0 {
                                                n0
                                            } else {
                                                p.balance1
                                            };
                                            let n_ask: u128 = if offer0 {
                                                p.balance1
                                            } else {
                                                n0
                                            };
                                            if n_offer + off_norm > u128::MAX {
                                                Err(ContractError::Overflow)
                                            } else {
                                                match crate::math::spec_compute_y(
                                                    amp,
                                                    (n_offer + off_norm) as u128,
                                                    d,
                                                ) {
                                                    Err(e) => Err(e),
                                                    Ok(y) => {
                                                        if n_ask < y {
                                                            Err(ContractError::Overflow)
                                                        } else {
                                                            let ret_norm: u128 = (n_ask - y) as u128;
                                                            let ret_raw_r: Option<u128> = if offer0 {
                                                                Option::Some(ret_norm)
                                                            } else {
                                                                rate.spec_div_floor(ret_norm)
                                                            };
                                                            let exp_raw_r: Option<u128> = if offer0 {
                                                                Option::Some(off_norm)
                                                            } else {
                                                                rate.spec_div_floor(offer_amount)
                                                            };
                                                            match ret_raw_r {
                                                                Option::None => Err(
                                                                    ContractError::Overflow,
                                                                ),
                                                                Option::Some(ret_raw) => {
                                                                    match exp_raw_r {
                                                                        Option::None => Err(
                                                                            ContractError::Overflow,
                                                                        ),
                                                                        Option::Some(exp_raw) => Self::spec_swap_settle(
                                                                            p,
                                                                            cache1,
                                                                            offer0,
                                                                            offer_amount,
                                                                            ret_raw,
                                                                            exp_raw,
                                                                            belief_price,
                                                                            max_spread,
                                                                            now,
                                                                        ),
                                                                    }
                                                                },
                                                            }
                                                        }
                                                    },
                                                }
                                            }
                                        },
                                    }
                                },
                            }
                        },
                    }
                }
            },
        }
    }

    /// Computes a swap's staged effects without mutating the pool.
    #[verifier::rlimit(100)]
    fn plan_swap(
        &self,
        offer_asset: &AssetInfo,
        offer_amount: u128,
        belief_price: Option<Decimal>,
        max_spread: Option<Decimal>,
        fresh_rate: Option<Decimal>,
        height: u64,
        now: u64,
    ) -> (r: Result<SwapPlan, ContractError>)
        requires
            self.wf(),
        ensures
            match Self::spec_swap(
                *self,
                offer_asset,
                offer_amount,
                belief_price,
                max_spread,
                fresh_rate,
                height,
                now,
            ) {
                Ok((p2, sr)) => ({
                    &&& r matches Ok(plan)
                    &&& plan.result == sr
                    &&& p2 == (Pool {
                        config: Config {
                            block_time_last: plan.t,
                            price0_cumulative_last: plan.a0,
                            price1_cumulative_last: plan.a1,
                            ..self.config
                        },
                        er_cache: CachedExchangeRate {
                            exchange_rate: plan.cache_rate,
                            height: plan.cache_height,
                            ..self.er_cache
                        },
                        balance0: plan.nb0,
                        balance1: plan.nb1,
                        total_shares: self.total_shares,
                    })
                }),
                Err(e) => r matches Err(e2) && e2 == e,
            },
    {
        let expired: bool = self.er_cache.is_expired(height);
        let rate: Decimal = if expired {
            match fresh_rate {
                Option::None => {
                    return Err(ContractError::StaleExchangeRate);
                },
                Option::Some(f) => {
                    if f.is_zero() {
                        return Err(ContractError::InvalidRate);
                    }
                    f
                },
            }
        } else {
            self.er_cache.exchange_rate
        };
        let is0: bool = offer_asset.equal(&self.config.asset_infos[0]);
        let is1: bool = offer_asset.equal(&self.config.asset_infos[1]);
        if !is0 && !is1 {
            return Err(ContractError::AssetMismatch);
        }
        if offer_amount == 0 {
            return Err(ContractError::InvalidZeroAmount);
        }
        let offer0: bool = is0;
        proof {
            crate::amp::lemma_current_amp_bounds(self.config.amp, now);
        }
        let amp: u64 = self.config.amp.current_amp(now);
        let n0: u128 = match rate.mul_floor(self.balance0) {
            Some(v) => v,
            None => {
                return Err(ContractError::Overflow);
            },
        };
        let d: u128 = match crate::math::compute_d(amp, n0, self.balance1) {
            Ok(v) => v,
            Err(e) => {
                return Err(e);
            },
        };
        let off_norm: u128 = if offer0 {
            match rate.mul_floor(offer_amount) {
                Some(v) => v,
                None => {
                    return Err(ContractError::Overflow);
                },
            }
        } else {
            offer_amount
        };
        let n_offer: u128 = if offer0 {
            n0
        } else {
            self.balance1
        };
        let n_ask: u128 = if offer0 {
            self.balance1
        } else {
            n0
        };
        let new_off_norm: u128 = match n_offer.checked_add(off_norm) {
            Some(v) => v,
            None => {
                return Err(ContractError::Overflow);
            },
        };
        let y: u128 = match crate::math::compute_y(amp, new_off_norm, d) {
            Ok(v) => v,
            Err(e) => {
                return Err(e);
            },
        };
        if n_ask < y {
            return Err(ContractError::Overflow);
        }
        let ret_norm: u128 = n_ask - y;
        let ret_raw: u128 = if offer0 {
            ret_norm
        } else {
            match rate.div_floor(ret_norm) {
                Some(v) => v,
                None => {
                    return Err(ContractError::Overflow);
                },
            }
        };
        let exp_raw: u128 = if offer0 {
            off_norm
        } else {
            match rate.div_floor(offer_amount) {
                Some(v) => v,
                None => {
                    return Err(ContractError::Overflow);
                },
            }
        };
        let spread: u128 = if exp_raw >= ret_raw {
            exp_raw - ret_raw
        } else {
            0
        };
        let cscaled: u128 = match self.config.commission_rate.atomics.checked_mul(ret_raw) {
            Some(v) => v,
            None => {
                return Err(ContractError::Overflow);
            },
        };
        let commission: u128 = cscaled / DECIMAL_FRACTIONAL;
        proof {
            crate::math::lemma_mul_div_bounds(
                ret_raw as int,
                self.config.commission_rate.atomics as int,
                DECIMAL_FRACTIONAL as int,
            );
            assert(self.config.commission_rate.atomics * ret_raw == ret_raw
                * self.config.commission_rate.atomics) by (nonlinear_arith);
        }
        let ret_after: u128 = ret_raw - commission;
        if let Option::Some(ms) = max_spread {
            if exp_raw > 0 {
                let sdf: u128 = match spread.checked_mul(DECIMAL_FRACTIONAL) {
                    Some(v) => v,
                    None => {
                        return Err(ContractError::Overflow);
                    },
                };
                if sdf / exp_raw > ms.atomics {
                    return Err(ContractError::MaxSpreadAssertion);
                }
            }
        }
        if let Option::Some(bp) = belief_price {
            if ret_raw == 0 {
                return Err(ContractError::MaxSlippageAssertion);
            }
            let odf: u128 = match offer_amount.checked_mul(DECIMAL_FRACTIONAL) {
                Some(v) => v,
                None => {
                    return Err(ContractError::Overflow);
                },
            };
            if odf / ret_raw > bp.atomics {
                return Err(ContractError::MaxSlippageAssertion);
            }
        }
        let b_off_old: u128 = if offer0 {
            self.balance0
        } else {
            self.balance1
        };
        let b_ask_old: u128 = if offer0 {
            self.balance1
        } else {
            self.balance0
        };
        let b_off_new: u128 = match b_off_old.checked_add(offer_amount) {
            Some(v) => v,
            None => {
                return Err(ContractError::Overflow);
            },
        };
        if b_ask_old < ret_after {
            return Err(ContractError::Overflow);
        }
        let b_ask_new: u128 = b_ask_old - ret_after;
        let nb0: u128 = if offer0 {
            b_off_new
        } else {
            b_ask_new
        };
        let nb1: u128 = if offer0 {
            b_ask_new
        } else {
            b_off_new
        };
        let (t, a0, a1) = match self.accumulate_prices(now) {
            Ok(v) => v,
            Err(e) => {
                return Err(e);
            },
        };
        let cache_height: u64 = if expired {
            height
        } else {
            self.er_cache.height
        };
        Ok(
            SwapPlan {
                cache_rate: rate,
                cache_height,
                nb0,
                nb1,
                t,
                a0,
                a1,
                result: SwapResult {
                    return_amount: ret_after,
                    spread_amount: spread,
                    commission_amount: commission,
                },
            },
        )
    }

    /// Swaps `offer_amount` of `offer_asset` against the pool:
    /// refreshes rate and amplification, walks the invariant curve,
    /// deducts the proportional commission (which stays in the pool)
    /// and enforces the spread and belief-price guards. On any error
    /// the pool is unchanged.
    pub fn swap(
        &mut self,
        offer_asset: &AssetInfo,
        offer_amount: u128,
        belief_price: Option<Decimal>,
        max_spread: Option<Decimal>,
        fresh_rate: Option<Decimal>,
        height: u64,
        now: u64,
    ) -> (r: Result<SwapResult, ContractError>)
        requires
            old(self).wf(),
        ensures
            match Self::spec_swap(
                *old(self),
                offer_asset,
                offer_amount,
                belief_price,
                max_spread,
                fresh_rate,
                height,
                now,
            ) {
                Ok((p, sr)) => r == Ok::<SwapResult, ContractError>(sr) && *final(self) == p,
                Err(e) => r == Err::<SwapResult, ContractError>(e) && *final(self) == *old(self),
            },
            final(self).wf(),
    {
        let plan: SwapPlan = match self.plan_swap(
            offer_asset,
            offer_amount,
            belief_price,
            max_spread,
            fresh_rate,
            height,
            now,
        ) {
            Ok(p) => p,
            Err(e) => {
                return Err(e);
            },
        };
        self.config.block_time_last = plan.t;
        self.config.price0_cumulative_last = plan.a0;
        self.config.price1_cumulative_last = plan.a1;
        self.er_cache.exchange_rate = plan.cache_rate;
        self.er_cache.height = plan.cache_height;
        self.balance0 = plan.nb0;
        self.balance1 = plan.nb1;
        Ok(plan.result)
    }

    /// Answers what a swap of `offer_amount` of `offer_asset` would
    /// return right now, without touching the pool. A stale cache
    /// needs a fresh oracle rate here too.
    pub fn simulation(
        &self,
        offer_asset: &AssetInfo,
        offer_amount: u128,
        fresh_rate: Option<Decimal>,
        height: u64,
        now: u64,
    ) -> (r: Result<SwapResult, ContractError>)
        requires
            self.wf(),
        ensures
            match Self::spec_swap(
                *self,
                offer_asset,
                offer_amount,
                Option::None,
                Option::None,
                fresh_rate,
                height,
                now,
            ) {
                Ok((_, sr)) => r == Ok::<SwapResult, ContractError>(sr),
                Err(e) => r == Err::<SwapResult, ContractError>(e),
            },
    {
        match self.plan_swap(
            offer_asset,
            offer_amount,
            Option::None,
            Option::None,
            fresh_rate,
            height,
            now,
        ) {
            Ok(plan) => Ok(plan.result),
            Err(e) => Err(e),
        }
    }
}

impl Pool {
    /// The result of `update_config`: a ramp start or stop on the
    /// amplification schedule, a new rate-provider address, or a new
    /// cache staleness window.
    pub open spec fn spec_update_config(
        p: Pool,
        params: &MetastablePoolUpdateParams,
        now: u64,
    ) -> Result<Pool, ContractError> {
        match params {
            MetastablePoolUpdateParams::StartChangingAmp { next_amp, next_amp_time } => {
                match p.config.amp.spec_start_ramp(*next_amp, *next_amp_time, now) {
                    Err(e) => Err(e),
                    Ok(s) => Ok(Pool { config: Config { amp: s, ..p.config }, ..p }),
                }
            },
            MetastablePoolUpdateParams::StopChangingAmp {  } => {
                let frozen: u64 = p.config.amp.spec_current_amp(now) as u64;
                Ok(
                    Pool {
                        config: Config {
                            amp: AmpSchedule {
                                init_amp: frozen,
                                init_amp_time: now,
                                next_amp: frozen,
                                next_amp_time: now,
                            },
                            ..p.config
                        },
                        ..p
                    },
                )
            },
            MetastablePoolUpdateParams::UpdateRateProvider { address } => Ok(
                Pool { config: Config { er_provider_addr: *address, ..p.config }, ..p },
            ),
            MetastablePoolUpdateParams::UpdateErCacheBTL { btl } => {
                if *btl == 0 {
                    Err(ContractError::InvalidTtl)
                } else {
                    Ok(Pool { er_cache: CachedExchangeRate { btl: *btl, ..p.er_cache }, ..p })
                }
            },
        }
    }

    /// Applies a configuration update: starts or stops an
    /// amplification ramp, replaces the rate-provider address, or
    /// replaces the cache staleness window. On any error the pool is
    /// unchanged.
    pub fn update_config(&mut self, params: &MetastablePoolUpdateParams, now: u64) -> (r: Result<
        (),
        ContractError,
    >)
        requires
            old(self).wf(),
        ensures
            match Self::spec_update_config(*old(self), params, now) {
                Ok(p) => r == Ok::<(), ContractError>(()) && *final(self) == p,
                Err(e) => r == Err::<(), ContractError>(e) && *final(self) == *old(self),
            },
            final(self).wf(),
    {
        match params {
            MetastablePoolUpdateParams::StartChangingAmp { next_amp, next_amp_time } => {
                self.config.amp.start_ramp(*next_amp, *next_amp_time, now)
            },
            MetastablePoolUpdateParams::StopChangingAmp {  } => {
                self.config.amp.stop_ramp(now);
                Ok(())
            },
            MetastablePoolUpdateParams::UpdateRateProvider { address } => {
                self.config.er_provider_addr = address.clone();
                Ok(())
            },
            MetastablePoolUpdateParams::UpdateErCacheBTL { btl } => self.er_cache.update_btl(*btl),
        }
    }

    /// The pool's asset pair, in order.
    pub fn assets(&self) -> (r: [AssetInfo; 2])
        ensures
            r@ == self.config.asset_infos@,
    {
        let r = [self.config.asset_infos[0].duplicate(), self.config.asset_infos[1].duplicate()];
        proof {
            assert(r@ =~= self.config.asset_infos@);
        }
        r
    }

    /// The raw balances the pool owns.
    pub fn balances(&self) -> (r: (u128, u128))
        ensures
            r.0 == self.balance0,
            r.1 == self.balance1,
    {
        (self.balance0, self.balance1)
    }

    /// The liquidity-share supply, including the locked floor.
    pub fn share_supply(&self) -> (r: u128)
        ensures
            r == self.total_shares,
    {
        self.total_shares
    }

    /// The TWAP state: both cumulative prices and the timestamp of
    /// their last advance.
    pub fn cumulative_prices(&self) -> (r: (u128, u128, u64))
        ensures
            r.0 == self.config.price0_cumulative_last,
            r.1 == self.config.price1_cumulative_last,
            r.2 == self.config.block_time_last,
    {
        (
            self.config.price0_cumulative_last,
            self.config.price1_cumulative_last,
            self.config.block_time_last,
        )
    }

    /// The accumulators as a query sees them at `now`: the stored
    /// values advanced across the idle window at the prevailing
    /// cached rate and the current amplification, without committing
    /// anything. Reads at later timestamps include the idle time; a
    /// second read at the same timestamp reports the same values.
    pub fn cumulative_prices_at(&self, now: u64) -> (r: Result<(u128, u128, u64), ContractError>)
        requires
            self.wf(),
        ensures
            match Self::spec_accumulate(*self, now) {
                Ok((t, a0, a1)) => r == Ok::<(u128, u128, u64), ContractError>((a0, a1, t)),
                Err(e) => r == Err::<(u128, u128, u64), ContractError>(e),
            },
    {
        match self.accumulate_prices(now) {
            Ok((t, a0, a1)) => Ok((a0, a1, t)),
            Err(e) => Err(e),
        }
    }

    /// The pool parameters as queriers see them: the currently
    /// effective amplification, unscaled, as a decimal.
    pub fn metastable_config(&self, now: u64) -> (r: MetastablePoolConfig)
        requires
            self.wf(),
        ensures
            r.amp.atomics == self.config.amp.spec_current_amp(now) * DECIMAL_FRACTIONAL / (
            crate::math::AMP_PRECISION as int),
            r.er_provider_addr@ == self.config.er_provider_addr@,
            r.er_cache_btl == self.er_cache.btl,
    {
        proof {
            crate::amp::lemma_current_amp_bounds(self.config.amp, now);
        }
        let cur: u64 = self.config.amp.current_amp(now);
        let amp_dec: Decimal = Decimal::from_ratio(
            cur as u128,
            crate::math::AMP_PRECISION as u128,
        );
        MetastablePoolConfig {
            amp: amp_dec,
            er_provider_addr: self.config.er_provider_addr.clone(),
            er_cache_btl: self.er_cache.get_btl(),
        }
    }
}

/// The answer of a reverse simulation: the offer the desired output
/// demands, with the spread and commission that swap would realize.
#[derive(Clone, Copy, Debug, PartialEq, Eq, Structural)]
pub struct ReverseSimulationResult {
    pub offer_amount: u128,
    pub spread_amount: u128,
    pub commission_amount: u128,
}

impl Pool {
    /// The result of `reverse_simulation`: the curve walked
    /// backwards. The desired post-commission output is grossed up to
    /// `before = ask_amount * 10^18 / (10^18 - commission_rate)`,
    /// converted to normalized units, removed from the ask side, and
    /// the solver gives the offer-side balance the invariant then
    /// demands; the difference to the current offer-side balance,
    /// converted to raw units, is the required offer. All divisions
    /// truncate exactly as in `spec_swap`.
    pub open spec fn spec_reverse_simulation(
        p: Pool,
        ask_asset: &AssetInfo,
        ask_amount: u128,
        fresh: Option<Decimal>,
        height: u64,
        now: u64,
    ) -> Result<ReverseSimulationResult, ContractError> {
        match p.spec_resolve_rate(height, fresh) {
            Err(e) => Err(e),
            Ok((rate, _)) => {
                if !ask_asset.same_as(&p.config.asset_infos@[0]) && !ask_asset.same_as(
                    &p.config.asset_infos@[1],
                ) {
                    Err(ContractError::AssetMismatch)
                } else if ask_amount == 0 {
                    Err(ContractError::InvalidZeroAmount)
                } else {
                    let ask0: bool = ask_asset.same_as(&p.config.asset_infos@[0]);
                    let amp: u64 = p.config.amp.spec_current_amp(now) as u64;
                    match rate.spec_mul_floor(p.balance0) {
                        Option::None => Err(ContractError::Overflow),
                        Option::Some(n0) => {
                            match crate::math::spec_compute_d(amp, n0, p.balance1) {
                                Err(e) => Err(e),
                                Ok(d) => {
                                    if ask_amount * DECIMAL_FRACTIONAL > u128::MAX {
                                        Err(ContractError::Overflow)
                                    } else {
                                        let before: int = ask_amount * DECIMAL_FRACTIONAL / (
                                        DECIMAL_FRACTIONAL - p.config.commission_rate.atomics);
                                        if before < ask_amount || before > u128::MAX {
                                            Err(ContractError::Overflow)
                                        } else {
                                            Self::spec_reverse_tail(
                                                p,
                                                rate,
                                                ask0,
                                                ask_amount,
                                                before as u128,
                                                n0,
                                                amp,
                                                d,
                                            )
                                        }
                                    }
                                },
                            }
                        },
                    }
                }
            },
        }
    }

    /// The curve walk of `spec_reverse_simulation`, from the
    /// pre-commission output `before`.
    pub open spec fn spec_reverse_tail(
        p: Pool,
        rate: Decimal,
        ask0: bool,
        ask_amount: u128,
        before: u128,
        n0: u128,
        amp: u64,
        d: u128,
    ) -> Result<ReverseSimulationResult, ContractError> {
        let ret_norm_r: Option<u128> = if ask0 {
            rate.spec_mul_floor(before)
        } else {
            Option::Some(before)
        };
        match ret_norm_r {
            Option::None => Err(ContractError::Overflow),
            Option::Some(ret_norm) => {
                let n_ask: u128 = if ask0 {
                    n0
                } else {
                    p.balance1
                };
                let n_off: u128 = if ask0 {
                    p.balance1
                } else {
                    n0
                };
                if n_ask < ret_norm {
                    Err(ContractError::Overflow)
                } else {
                    match crate::math::spec_compute_y(amp, (n_ask - ret_norm) as u128, d) {
                        Err(e) => Err(e),
                        Ok(y) => {
                            if y < n_off {
                                Err(ContractError::Overflow)
                            } else {
                                let off_norm: u128 = (y - n_off) as u128;
                                let offer_r: Option<u128> = if ask0 {
                                    Option::Some(off_norm)
                                } else {
                                    rate.spec_div_floor(off_norm)
                                };
                                let exp_r: Option<u128> = if ask0 {
                                    rate.spec_div_floor(off_norm)
                                } else {
                                    Option::Some(off_norm)
                                };
                                match offer_r {
                                    Option::None => Err(ContractError::Overflow),
                                    Option::Some(offer_amount) => {
                                        match exp_r {
                                            Option::None => Err(ContractError::Overflow),
                                            Option::Some(exp_raw) => Ok(
                                                ReverseSimulationResult {
                                                    offer_amount,
                                                    spread_amount: if exp_raw >= before {
                                                        (exp_raw - before) as u128
                                                    } else {
                                                        0u128
                                                    },
                                                    commission_amount: (before - ask_amount) as u128,
                                                },
                                            ),
                                        }
                                    },
                                }
                            }
                        },
                    }
                }
            },
        }
    }

    /// Answers what offer a swap would need to return `ask_amount` of
    /// `ask_asset` (after commission), without touching the pool.
    pub fn reverse_simulation(
        &self,
        ask_asset: &AssetInfo,
        ask_amount: u128,
        fresh_rate: Option<Decimal>,
        height: u64,
        now: u64,
    ) -> (r: Result<ReverseSimulationResult, ContractError>)
        requires
            self.wf(),
        ensures
            r == Self::spec_reverse_simulation(*self, ask_asset, ask_amount, fresh_rate, height, now),
    {
        let rate: Decimal = if self.er_cache.is_expired(height) {
            match fresh_rate {
                Option::None => {
                    return Err(ContractError::StaleExchangeRate);
                },
                Option::Some(f) => {
                    if f.is_zero() {
                        return Err(ContractError::InvalidRate);
                    }
                    f
                },
            }
        } else {
            self.er_cache.exchange_rate
        };
        let is0: bool = ask_asset.equal(&self.config.asset_infos[0]);
        let is1: bool = ask_asset.equal(&self.config.asset_infos[1]);
        if !is0 && !is1 {
            return Err(ContractError::AssetMismatch);
        }
        if ask_amount == 0 {
            return Err(ContractError::InvalidZeroAmount);
        }
        let ask0: bool = is0;
        proof {
            crate::amp::lemma_current_amp_bounds(self.config.amp, now);
        }
        let amp: u64 = self.config.amp.current_amp(now);
        let n0: u128 = match rate.mul_floor(self.balance0) {
            Some(v) => v,
            None => {
                return Err(ContractError::Overflow);
            },
        };
        let d: u128 = match crate::math::compute_d(amp, n0, self.balance1) {
            Ok(v) => v,
            Err(e) => {
                return Err(e);
            },
        };
        let askdf: u128 = match ask_amount.checked_mul(DECIMAL_FRACTIONAL) {
            Some(v) => v,
            None => {
                return Err(ContractError::Overflow);
            },
        };
        let before: u128 = askdf / (DECIMAL_FRACTIONAL - self.config.commission_rate.atomics);
        if before < ask_amount {
            return Err(ContractError::Overflow);
        }
        let ret_norm: u128 = if ask0 {
            match rate.mul_floor(before) {
                Some(v) => v,
                None => {
                    return Err(ContractError::Overflow);
                },
            }
        } else {
            before
        };
        let n_ask: u128 = if ask0 {
            n0
        } else {
            self.balance1
        };
        let n_off: u128 = if ask0 {
            self.balance1
        } else {
            n0
        };
        if n_ask < ret_norm {
            return Err(ContractError::Overflow);
        }
        let y: u128 = match crate::math::compute_y(amp, n_ask - ret_norm, d) {
            Ok(v) => v,
            Err(e) => {
                return Err(e);
            },
        };
        if y < n_off {
            return Err(ContractError::Overflow);
        }
        let off_norm: u128 = y - n_off;
        let offer_amount: u128 = if ask0 {
            off_norm
        } else {
            match rate.div_floor(off_norm) {
                Some(v) => v,
                None => {
                    return Err(ContractError::Overflow);
                },
            }
        };
        let exp_raw: u128 = if ask0 {
            match rate.div_floor(off_norm) {
                Some(v) => v,
                None => {
                    return Err(ContractError::Overflow);
                },
            }
        } else {
            off_norm
        };
        let spread_amount: u128 = if exp_raw >= before {
            exp_raw - before
        } else {
            0
        };
        Ok(
            ReverseSimulationResult {
                offer_amount,
                spread_amount,
                commission_amount: before - ask_amount,
            },
        )
    }
}

/// A product with a factor of at least one is no smaller than the
/// other factor.
proof fn lemma_ge_one_mul(a: int, b: int)
    requires
        1 <= a,
        0 <= b,
    ensures
        a * b >= b,
{
    assert(a * b >= b) by (nonlinear_arith)
        requires
            1 <= a,
            0 <= b,
    ;
}

/// Repeated operations at one timestamp never double-accumulate:
/// once `block_time_last` stands at `now`, accumulating at `now`
/// again returns the stored values unchanged. Together with every
/// operation's exact contract this pins the TWAP discipline: each
/// distinct timestamp contributes exactly one accumulation.
pub proof fn lemma_accumulate_once_per_timestamp(p: Pool, now: u64)
    requires
        now <= p.config.block_time_last,
    ensures
        Pool::spec_accumulate(p, now) == Ok::<(u64, u128, u128), ContractError>(
            (
                p.config.block_time_last,
                p.config.price0_cumulative_last,
                p.config.price1_cumulative_last,
            ),
        ),
{
    reveal(Pool::spec_accumulate);
}

/// A `spec_mul_div` whose middle factor exceeds 128 bits always
/// reports overflow.
proof fn lemma_mul_div_overflow(a: int, b: int, c: int)
    requires
        1 <= a,
        u128::MAX < b,
        0 <= c,
    ensures
        Pool::spec_mul_div(a, b, c) == Err::<u128, ContractError>(ContractError::Overflow),
{
    if 0 < c <= u128::MAX {
        vstd::arithmetic::div_mod::lemma_fundamental_div_mod(a, c);
        vstd::arithmetic::div_mod::lemma_mod_bound(a, c);
        vstd::arithmetic::div_mod::lemma_div_pos_is_pos(a, c);
        let q: int = a / c;
        let rm: int = a % c;
        if rm >= 1 {
            lemma_ge_one_mul(rm, b);
        } else {
            assert(q >= 1) by {
                if q < 1 {
                    assert(c * q <= 0) by (nonlinear_arith)
                        requires
                            q <= 0,
                            c > 0,
                    ;
                }
            }
            assert(rm * b == 0) by (nonlinear_arith)
                requires
                    rm == 0,
            ;
            lemma_ge_one_mul(q, b);
            vstd::arithmetic::div_mod::lemma_div_of0(c);
        }
    }
}

/// Withdrawing 100% of the shares returns the pool's full raw
/// balances — no dust remains — and empties the pool.
pub proof fn lemma_full_withdrawal(p: Pool, now: u64)
    requires
        p.wf(),
        0 < p.total_shares,
        Pool::spec_accumulate(p, now) is Ok,
    ensures
        ({
            &&& Pool::spec_withdraw(p, p.total_shares, now) matches Ok((p2, r0, r1))
            &&& r0 == p.balance0
            &&& r1 == p.balance1
            &&& p2.balance0 == 0
            &&& p2.balance1 == 0
            &&& p2.total_shares == 0
        }),
{
}

} // verus!
