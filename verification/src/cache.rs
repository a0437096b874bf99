use vstd::prelude::*;

use crate::asset::AssetInfo;
use crate::decimal::{Decimal, DECIMAL_FRACTIONAL_SQUARED};
use crate::error::ContractError;

verus! {

/// The last-observed oracle exchange rate for one ordered asset pair,
/// together with its staleness window.
///
/// The rate is always stored for the canonical ordering
/// `asset_infos[0] -> asset_infos[1]`; a lookup in the opposite order
/// returns the multiplicative inverse, computed at extended precision.
#[derive(Clone, Debug)]
pub struct CachedExchangeRate {
    /// The two assets of the pair, in canonical order.
    pub asset_infos: [AssetInfo; 2],
    /// How many units of `asset_infos[1]` one unit of `asset_infos[0]`
    /// is worth. Strictly positive.
    pub exchange_rate: Decimal,
    /// Block height at which the rate was observed.
    pub height: u64,
    /// Blocks to live: heights `>= height + btl` see the entry as
    /// expired. Strictly positive.
    pub btl: u64,
}

impl CachedExchangeRate {
    /// Internal consistency: the cached rate is positive and the
    /// staleness window is non-empty.
    pub open spec fn wf(&self) -> bool {
        &&& 0 < self.exchange_rate.atomics
        &&& 0 < self.btl
    }

    /// The requested pair matches the cached pair in its canonical
    /// order.
    pub open spec fn spec_forward(&self, a0: &AssetInfo, a1: &AssetInfo) -> bool {
        a0.same_as(&self.asset_infos@[0]) && a1.same_as(&self.asset_infos@[1])
    }

    /// The requested pair matches the cached pair in reverse order.
    pub open spec fn spec_reverse(&self, a0: &AssetInfo, a1: &AssetInfo) -> bool {
        a0.same_as(&self.asset_infos@[1]) && a1.same_as(&self.asset_infos@[0])
    }

    /// The rate the cache answers for the given ordered pair: the
    /// stored rate forward, its extended-precision inverse backward,
    /// and a mismatch error for any pair that is not a permutation of
    /// the cached one.
    pub open spec fn spec_get_rate(&self, a0: &AssetInfo, a1: &AssetInfo) -> Result<
        Decimal,
        ContractError,
    > {
        if self.spec_forward(a0, a1) {
            Ok(self.exchange_rate)
        } else if self.spec_reverse(a0, a1) {
            Ok(Decimal { atomics: DECIMAL_FRACTIONAL_SQUARED / self.exchange_rate.atomics })
        } else {
            Err(ContractError::AssetMismatch)
        }
    }

    /// The state `update_rate` leaves behind, or the error it reports.
    pub open spec fn spec_update_rate(
        self,
        a0: &AssetInfo,
        a1: &AssetInfo,
        exchange_rate: Decimal,
        height: u64,
    ) -> Result<CachedExchangeRate, ContractError> {
        if exchange_rate.atomics == 0 {
            Err(ContractError::InvalidRate)
        } else if self.spec_forward(a0, a1) {
            Ok(CachedExchangeRate { exchange_rate, height, ..self })
        } else if self.spec_reverse(a0, a1) {
            if DECIMAL_FRACTIONAL_SQUARED / exchange_rate.atomics == 0 {
                // The inverse would truncate to zero and void the
                // positivity invariant.
                Err(ContractError::InvalidRate)
            } else {
                Ok(
                    CachedExchangeRate {
                        exchange_rate: Decimal {
                            atomics: DECIMAL_FRACTIONAL_SQUARED / exchange_rate.atomics,
                        },
                        height,
                        ..self
                    },
                )
            }
        } else {
            Err(ContractError::AssetMismatch)
        }
    }

    /// Builds a cache entry, rejecting a non-positive rate and an
    /// empty staleness window.
    pub fn new(
        asset_infos: [AssetInfo; 2],
        exchange_rate: Decimal,
        height: u64,
        btl: u64,
    ) -> (r: Result<CachedExchangeRate, ContractError>)
        ensures
            exchange_rate.atomics == 0 ==> r == Err::<CachedExchangeRate, _>(
                ContractError::InvalidRate,
            ),
            exchange_rate.atomics != 0 && btl == 0 ==> r == Err::<CachedExchangeRate, _>(
                ContractError::InvalidTtl,
            ),
            exchange_rate.atomics != 0 && btl != 0 ==> r == Ok::<_, ContractError>(
                CachedExchangeRate { asset_infos, exchange_rate, height, btl },
            ),
            r matches Ok(c) ==> c.wf(),
    {
        if exchange_rate.is_zero() {
            return Err(ContractError::InvalidRate);
        }
        if btl == 0 {
            return Err(ContractError::InvalidTtl);
        }
        Ok(CachedExchangeRate { asset_infos, exchange_rate, height, btl })
    }

    /// The asset pair of the entry, in canonical order.
    pub fn get_assets(&self) -> (r: [AssetInfo; 2])
        ensures
            r@ == self.asset_infos@,
    {
        let r = [self.asset_infos[0].duplicate(), self.asset_infos[1].duplicate()];
        proof {
            assert(r@ =~= self.asset_infos@);
        }
        r
    }

    /// The cached rate for the ordered pair `asset_infos[0] ->
    /// asset_infos[1]`: the stored rate, its inverse for the reversed
    /// pair, and `AssetMismatch` for any other pair.
    pub fn get_rate(&self, asset_infos: [&AssetInfo; 2]) -> (r: Result<Decimal, ContractError>)
        requires
            self.wf(),
        ensures
            r == self.spec_get_rate(asset_infos@[0], asset_infos@[1]),
    {
        if asset_infos[0].equal(&self.asset_infos[0]) && asset_infos[1].equal(
            &self.asset_infos[1],
        ) {
            Ok(self.exchange_rate)
        } else if asset_infos[0].equal(&self.asset_infos[1]) && asset_infos[1].equal(
            &self.asset_infos[0],
        ) {
            Ok(Decimal { atomics: DECIMAL_FRACTIONAL_SQUARED / self.exchange_rate.atomics })
        } else {
            Err(ContractError::AssetMismatch)
        }
    }

    /// Re-observes the rate for the given (possibly reversed) pair:
    /// stores the rate in canonical direction together with the
    /// observation height. Rejects a non-positive rate; on any error
    /// the entry is unchanged.
    pub fn update_rate(
        &mut self,
        asset_infos: [&AssetInfo; 2],
        exchange_rate: Decimal,
        height: u64,
    ) -> (r: Result<(), ContractError>)
        requires
            old(self).wf(),
        ensures
            match old(self).spec_update_rate(
                asset_infos@[0],
                asset_infos@[1],
                exchange_rate,
                height,
            ) {
                Ok(c) => r == Ok::<(), ContractError>(()) && *final(self) == c,
                Err(e) => r == Err::<(), ContractError>(e) && *final(self) == *old(self),
            },
            final(self).wf(),
    {
        if exchange_rate.is_zero() {
            return Err(ContractError::InvalidRate);
        }
        if asset_infos[0].equal(&self.asset_infos[0]) && asset_infos[1].equal(
            &self.asset_infos[1],
        ) {
            self.exchange_rate = exchange_rate;
            self.height = height;
            return Ok(());
        }
        if asset_infos[0].equal(&self.asset_infos[1]) && asset_infos[1].equal(
            &self.asset_infos[0],
        ) {
            let inverted = DECIMAL_FRACTIONAL_SQUARED / exchange_rate.atomics;
            if inverted == 0 {
                return Err(ContractError::InvalidRate);
            }
            self.exchange_rate = Decimal { atomics: inverted };
            self.height = height;
            return Ok(());
        }
        Err(ContractError::AssetMismatch)
    }

    /// Replaces the staleness window; rejects an empty one. On error
    /// the entry is unchanged.
    pub fn update_btl(&mut self, btl: u64) -> (r: Result<(), ContractError>)
        requires
            old(self).wf(),
        ensures
            btl == 0 ==> r == Err::<(), _>(ContractError::InvalidTtl) && *final(self) == *old(self),
            btl != 0 ==> r == Ok::<(), ContractError>(()) && *final(self) == (CachedExchangeRate {
                btl,
                ..*old(self)
            }),
            final(self).wf(),
    {
        if btl == 0 {
            return Err(ContractError::InvalidTtl);
        }
        self.btl = btl;
        Ok(())
    }

    /// The staleness window, in blocks.
    pub fn get_btl(&self) -> (r: u64)
        ensures
            r == self.btl,
    {
        self.btl
    }

    /// Rate inversion round-trips: the rates the cache answers for
    /// the two orders of its pair are exact multiplicative inverses
    /// of one another — and, for every cached rate whose atomic count
    /// divides `10^36`, inverting the reversed answer recovers the
    /// forward answer exactly. (For other rates, such as 3.0, the
    /// final truncation loses one atomic unit.)
    pub proof fn lemma_rate_inversion_round_trip(self, a0: &AssetInfo, a1: &AssetInfo)
        requires
            self.wf(),
            self.spec_forward(a0, a1),
            !self.spec_reverse(a0, a1),
            DECIMAL_FRACTIONAL_SQUARED as int % (self.exchange_rate.atomics as int) == 0,
        ensures
            ({
                &&& self.spec_get_rate(a0, a1) matches Ok(fwd)
                &&& self.spec_get_rate(a1, a0) matches Ok(rev)
                &&& self.spec_get_rate(a0, a1)->Ok_0.spec_inv() == Some(
                    self.spec_get_rate(a1, a0)->Ok_0,
                )
                &&& self.spec_get_rate(a1, a0)->Ok_0.spec_inv() == Some(
                    self.spec_get_rate(a0, a1)->Ok_0,
                )
            }),
    {
        crate::decimal::lemma_inv_round_trip(self.exchange_rate);
    }

    /// Whether the entry is stale at the given height: false on every
    /// height in `[height, height + btl)` and true from
    /// `height + btl` on.
    pub fn is_expired(&self, height: u64) -> (r: bool)
        ensures
            r == (height >= self.height + self.btl),
    {
        height as u128 >= self.height as u128 + self.btl as u128
    }
}

} // verus!
