use vstd::prelude::*;

use crate::error::ContractError;
use crate::math::{AMP_PRECISION, MAX_AMP, MAX_AMP_CHANGE, MIN_AMP_CHANGING_TIME};

verus! {

/// A linear amplification ramp between two `(amp, time)` anchor
/// points. Amplification values are stored scaled by `AMP_PRECISION`.
///
/// The schedule is *flat* when the two anchor times coincide (then the
/// two amplification values coincide as well), and *ramping* for times
/// strictly between the anchors, where the effective value is the
/// truncated linear interpolation.
#[derive(Clone, Copy, Debug, PartialEq, Eq, Structural)]
pub struct AmpSchedule {
    /// Scaled amplification at (and before) `init_amp_time`.
    pub init_amp: u64,
    /// When the current ramp started.
    pub init_amp_time: u64,
    /// Scaled amplification reached at `next_amp_time`.
    pub next_amp: u64,
    /// When the current ramp ends.
    pub next_amp_time: u64,
}

impl AmpSchedule {
    /// Both anchors hold a scaled amplification in
    /// `[AMP_PRECISION, MAX_AMP * AMP_PRECISION]`, the anchor times
    /// are ordered, and a zero-length ramp is flat.
    pub open spec fn wf(&self) -> bool {
        &&& AMP_PRECISION <= self.init_amp <= MAX_AMP * AMP_PRECISION
        &&& AMP_PRECISION <= self.next_amp <= MAX_AMP * AMP_PRECISION
        &&& self.init_amp_time <= self.next_amp_time
        &&& self.init_amp_time == self.next_amp_time ==> self.init_amp == self.next_amp
    }

    /// The effective scaled amplification at time `now`:
    /// `init_amp + (next_amp - init_amp) * clamp(now - init_amp_time,
    /// 0, T) / T` with `T = next_amp_time - init_amp_time`, truncated;
    /// `next_amp` once the ramp has ended.
    pub open spec fn spec_current_amp(&self, now: u64) -> int {
        if now >= self.next_amp_time {
            self.next_amp as int
        } else if now <= self.init_amp_time {
            self.init_amp as int
        } else {
            let elapsed: int = now - self.init_amp_time;
            let total: int = self.next_amp_time - self.init_amp_time;
            if self.next_amp >= self.init_amp {
                self.init_amp + (self.next_amp - self.init_amp) * elapsed / total
            } else {
                self.init_amp - (self.init_amp - self.next_amp) * elapsed / total
            }
        }
    }

    /// The effective scaled amplification at time `now`.
    pub fn current_amp(&self, now: u64) -> (r: u64)
        requires
            self.wf(),
        ensures
            r == self.spec_current_amp(now),
    {
        if now >= self.next_amp_time {
            self.next_amp
        } else if now <= self.init_amp_time {
            self.init_amp
        } else {
            let elapsed: u64 = now - self.init_amp_time;
            let total: u64 = self.next_amp_time - self.init_amp_time;
            if self.next_amp >= self.init_amp {
                let diff: u64 = self.next_amp - self.init_amp;
                proof {
                    crate::math::lemma_mul_div_bounds(diff as int, elapsed as int, total as int);
                    vstd::arithmetic::mul::lemma_mul_upper_bound(
                        diff as int,
                        u64::MAX as int,
                        elapsed as int,
                        u64::MAX as int,
                    );
                }
                let bump: u128 = (diff as u128) * (elapsed as u128) / (total as u128);
                self.init_amp + (bump as u64)
            } else {
                let diff: u64 = self.init_amp - self.next_amp;
                proof {
                    crate::math::lemma_mul_div_bounds(diff as int, elapsed as int, total as int);
                    vstd::arithmetic::mul::lemma_mul_upper_bound(
                        diff as int,
                        u64::MAX as int,
                        elapsed as int,
                        u64::MAX as int,
                    );
                }
                let slide: u128 = (diff as u128) * (elapsed as u128) / (total as u128);
                self.init_amp - (slide as u64)
            }
        }
    }

    /// The state `start_ramp` leaves behind, or the error it reports:
    /// `IncorrectAmp` for a target outside `(0, MAX_AMP]`,
    /// `MaxAmpChangeAssertion` when old and new value differ by more
    /// than a factor of `MAX_AMP_CHANGE`, and
    /// `MinAmpChangingTimeAssertion` when the previous ramp started
    /// fewer than `MIN_AMP_CHANGING_TIME` seconds ago or the new ramp
    /// would run shorter than that.
    pub open spec fn spec_start_ramp(
        self,
        next_amp: u64,
        next_amp_time: u64,
        now: u64,
    ) -> Result<AmpSchedule, ContractError> {
        if next_amp == 0 || next_amp > MAX_AMP {
            Err(ContractError::IncorrectAmp)
        } else {
            let current: int = self.spec_current_amp(now);
            let next_scaled: int = next_amp * AMP_PRECISION;
            if next_scaled * MAX_AMP_CHANGE < current || next_scaled > current * MAX_AMP_CHANGE {
                Err(ContractError::MaxAmpChangeAssertion)
            } else if now < self.init_amp_time + MIN_AMP_CHANGING_TIME || next_amp_time < now
                + MIN_AMP_CHANGING_TIME {
                Err(ContractError::MinAmpChangingTimeAssertion)
            } else {
                Ok(
                    AmpSchedule {
                        init_amp: current as u64,
                        init_amp_time: now,
                        next_amp: next_scaled as u64,
                        next_amp_time,
                    },
                )
            }
        }
    }

    /// Starts a ramp from the currently effective value towards
    /// `next_amp` (unscaled), to be reached at `next_amp_time`. On any
    /// error the schedule is unchanged.
    pub fn start_ramp(&mut self, next_amp: u64, next_amp_time: u64, now: u64) -> (r: Result<
        (),
        ContractError,
    >)
        requires
            old(self).wf(),
        ensures
            match old(self).spec_start_ramp(next_amp, next_amp_time, now) {
                Ok(s) => r == Ok::<(), ContractError>(()) && *final(self) == s,
                Err(e) => r == Err::<(), ContractError>(e) && *final(self) == *old(self),
            },
            final(self).wf(),
    {
        if next_amp == 0 || next_amp > MAX_AMP {
            return Err(ContractError::IncorrectAmp);
        }
        proof {
            lemma_current_amp_bounds(*self, now);
        }
        let current: u64 = self.current_amp(now);
        let next_scaled: u64 = next_amp * AMP_PRECISION;
        if next_scaled * MAX_AMP_CHANGE < current || next_scaled > current * MAX_AMP_CHANGE {
            return Err(ContractError::MaxAmpChangeAssertion);
        }
        if (now as u128) < self.init_amp_time as u128 + MIN_AMP_CHANGING_TIME as u128 || (
        next_amp_time as u128) < now as u128 + MIN_AMP_CHANGING_TIME as u128 {
            return Err(ContractError::MinAmpChangingTimeAssertion);
        }
        self.init_amp = current;
        self.init_amp_time = now;
        self.next_amp = next_scaled;
        self.next_amp_time = next_amp_time;
        Ok(())
    }

    /// Freezes the schedule at its currently effective value: both
    /// anchors are set to `(current_amp(now), now)`.
    pub fn stop_ramp(&mut self, now: u64)
        requires
            old(self).wf(),
        ensures
            *final(self) == (AmpSchedule {
                init_amp: old(self).spec_current_amp(now) as u64,
                init_amp_time: now,
                next_amp: old(self).spec_current_amp(now) as u64,
                next_amp_time: now,
            }),
            final(self).wf(),
    {
        proof {
            lemma_current_amp_bounds(*self, now);
        }
        let current: u64 = self.current_amp(now);
        self.init_amp = current;
        self.init_amp_time = now;
        self.next_amp = current;
        self.next_amp_time = now;
    }
}

/// The effective amplification never leaves the interval spanned by
/// the two anchor values.
pub proof fn lemma_current_amp_bounds(s: AmpSchedule, now: u64)
    requires
        s.wf(),
    ensures
        s.init_amp <= s.next_amp ==> s.init_amp <= s.spec_current_amp(now) <= s.next_amp,
        s.next_amp <= s.init_amp ==> s.next_amp <= s.spec_current_amp(now) <= s.init_amp,
{
    if s.init_amp_time < now < s.next_amp_time {
        let elapsed: int = now - s.init_amp_time;
        let total: int = s.next_amp_time - s.init_amp_time;
        if s.next_amp >= s.init_amp {
            crate::math::lemma_mul_div_bounds(s.next_amp - s.init_amp, elapsed, total);
        } else {
            crate::math::lemma_mul_div_bounds(s.init_amp - s.next_amp, elapsed, total);
        }
    }
}

/// At the ramp's anchors the effective amplification equals the
/// anchor values exactly: `current_amp(init_amp_time) == init_amp` and
/// `current_amp(next_amp_time) == next_amp`.
pub proof fn lemma_current_amp_endpoints(s: AmpSchedule)
    requires
        s.wf(),
    ensures
        s.spec_current_amp(s.init_amp_time) == s.init_amp,
        s.spec_current_amp(s.next_amp_time) == s.next_amp,
{
}

/// Between its anchors the effective amplification is monotone: it
/// never overshoots in either direction of the ramp.
pub proof fn lemma_current_amp_monotonic(s: AmpSchedule, a: u64, b: u64)
    requires
        s.wf(),
        a <= b,
    ensures
        s.init_amp <= s.next_amp ==> s.spec_current_amp(a) <= s.spec_current_amp(b),
        s.next_amp <= s.init_amp ==> s.spec_current_amp(a) >= s.spec_current_amp(b),
{
    lemma_current_amp_bounds(s, a);
    lemma_current_amp_bounds(s, b);
    if s.init_amp_time < a < s.next_amp_time && s.init_amp_time < b < s.next_amp_time {
        let total: int = s.next_amp_time - s.init_amp_time;
        if s.next_amp >= s.init_amp {
            crate::math::lemma_mul_div_monotone(
                s.next_amp - s.init_amp,
                a - s.init_amp_time,
                b - s.init_amp_time,
                total,
            );
        } else {
            crate::math::lemma_mul_div_monotone(
                s.init_amp - s.next_amp,
                a - s.init_amp_time,
                b - s.init_amp_time,
                total,
            );
        }
    }
}

} // verus!
