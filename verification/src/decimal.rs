use vstd::prelude::*;

verus! {

/// Number of atomic units in 1.0: decimals carry 18 fractional digits.
pub const DECIMAL_FRACTIONAL: u128 = 1_000_000_000_000_000_000;

/// `DECIMAL_FRACTIONAL` squared; the extended-precision scale used for
/// inversion, so that `inv` loses no precision beyond the final
/// truncation back to 18 fractional digits.
pub const DECIMAL_FRACTIONAL_SQUARED: u128 = 1_000_000_000_000_000_000_000_000_000_000_000_000;

/// Unsigned fixed-point decimal with 18 fractional digits, stored as a
/// count of atomic units: the value is `atomics / 10^18`.
#[derive(Clone, Copy, Debug, PartialEq, Eq, Structural)]
pub struct Decimal {
    pub atomics: u128,
}

impl Decimal {
    /// The inverse as a value, when one exists: `floor(10^36 / a)`
    /// atomic units, computed at double precision.
    pub open spec fn spec_inv(self) -> Option<Decimal> {
        if self.atomics == 0 {
            None
        } else {
            Some(Decimal { atomics: DECIMAL_FRACTIONAL_SQUARED / self.atomics })
        }
    }

    /// `floor(amount * self)`, or `None` where the double-width product
    /// does not fit in 128 bits.
    pub open spec fn spec_mul_floor(self, amount: u128) -> Option<u128> {
        if amount * self.atomics > u128::MAX {
            None
        } else {
            Some(((amount * self.atomics) / (DECIMAL_FRACTIONAL as int)) as u128)
        }
    }

    /// `floor(amount / self)`, or `None` on a zero divisor or where the
    /// scaled numerator does not fit in 128 bits.
    pub open spec fn spec_div_floor(self, amount: u128) -> Option<u128> {
        if self.atomics == 0 || amount * DECIMAL_FRACTIONAL > u128::MAX {
            None
        } else {
            Some(((amount * DECIMAL_FRACTIONAL) / (self.atomics as int)) as u128)
        }
    }

    pub fn zero() -> (r: Decimal)
        ensures
            r.atomics == 0,
    {
        Decimal { atomics: 0 }
    }

    pub fn one() -> (r: Decimal)
        ensures
            r.atomics == DECIMAL_FRACTIONAL,
    {
        Decimal { atomics: DECIMAL_FRACTIONAL }
    }

    pub fn from_atomics(atomics: u128) -> (r: Decimal)
        ensures
            r.atomics == atomics,
    {
        Decimal { atomics }
    }

    /// `num / den` truncated to 18 fractional digits.
    pub fn from_ratio(num: u128, den: u128) -> (r: Decimal)
        requires
            0 < den,
            num * DECIMAL_FRACTIONAL <= u128::MAX,
        ensures
            r.atomics == num * DECIMAL_FRACTIONAL / (den as int),
    {
        Decimal { atomics: num * DECIMAL_FRACTIONAL / den }
    }

    pub fn is_zero(&self) -> (r: bool)
        ensures
            r == (self.atomics == 0),
    {
        self.atomics == 0
    }

    /// Multiplicative inverse, truncated: `1 / self` computed as
    /// `floor(10^36 / atomics)` so the only rounding loss is the final
    /// truncation.
    pub fn inv(&self) -> (r: Option<Decimal>)
        ensures
            r == self.spec_inv(),
    {
        if self.atomics == 0 {
            None
        } else {
            Some(Decimal { atomics: DECIMAL_FRACTIONAL_SQUARED / self.atomics })
        }
    }

    /// `floor(amount * self)` with an explicit overflow check.
    pub fn mul_floor(&self, amount: u128) -> (r: Option<u128>)
        ensures
            r == self.spec_mul_floor(amount),
    {
        match amount.checked_mul(self.atomics) {
            Some(p) => Some(p / DECIMAL_FRACTIONAL),
            None => None,
        }
    }

    /// `floor(amount / self)` with explicit zero and overflow checks.
    pub fn div_floor(&self, amount: u128) -> (r: Option<u128>)
        ensures
            r == self.spec_div_floor(amount),
    {
        if self.atomics == 0 {
            None
        } else {
            match amount.checked_mul(DECIMAL_FRACTIONAL) {
                Some(p) => Some(p / self.atomics),
                None => None,
            }
        }
    }
}

/// Inversion round-trips exactly on every decimal whose atomic count
/// divides `10^36`: for such a rate `d`, `inv(inv(d)) == d`. (Rates for
/// which the division truncates, such as 3.0, round-trip only up to
/// that truncation.)
pub proof fn lemma_inv_round_trip(d: Decimal)
    requires
        0 < d.atomics,
        DECIMAL_FRACTIONAL_SQUARED as int % (d.atomics as int) == 0,
    ensures
        ({
            &&& d.spec_inv() matches Some(i)
            &&& d.spec_inv()->Some_0.spec_inv() == Some(d)
        }),
{
    let a = d.atomics as int;
    let sq = DECIMAL_FRACTIONAL_SQUARED as int;
    let q = sq / a;
    vstd::arithmetic::div_mod::lemma_fundamental_div_mod(sq, a);
    assert(sq == a * q);
    assert(a <= sq) by {
        if a > sq {
            vstd::arithmetic::div_mod::lemma_basic_div(sq, a);
            assert(q == 0);
        }
    }
    assert(q >= 1) by {
        if q < 1 {
            assert(a * q <= 0) by (nonlinear_arith)
                requires
                    q <= 0,
                    a > 0,
            ;
        }
    }
    assert(sq / q == a) by {
        vstd::arithmetic::div_mod::lemma_div_multiples_vanish(a, q);
        assert(q * a / q == a);
        assert(q * a == a * q) by (nonlinear_arith);
    }
}

} // verus!
