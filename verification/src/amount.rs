//! Fixed-point asset amounts.
//!
//! Asset quantities, USD values and prices are signed fixed-point numbers
//! with [`AMOUNT_ONE`] subunits per whole unit.  Products and quotients are
//! truncated towards zero, and every operation that could leave the
//! representable range is checked, so the engine can turn an overflow into a
//! transaction-fatal error instead of a panic.

use vstd::prelude::*;

verus! {

/// Number of subunits in one whole unit.
pub const AMOUNT_ONE: i128 = 1_000_000;

/// A fixed-point amount of an asset, a USD value, or a price.
#[derive(Clone, Copy, PartialEq, Eq, Structural, Debug)]
pub struct Amount {
    pub subunits: i128,
}

/// Truncated product of two fixed-point numbers: `a * b` rescaled to
/// subunits.  Meaningful for non-negative operands, where truncation towards
/// zero coincides with the mathematical floor used here.
pub open spec fn mul_spec(a: int, b: int) -> int {
    (a * b) / (AMOUNT_ONE as int)
}

/// Truncated quotient of two fixed-point numbers: `a / b` rescaled to
/// subunits.  Meaningful for `a >= 0` and `b > 0`.
pub open spec fn div_spec(a: int, b: int) -> int {
    (a * (AMOUNT_ONE as int)) / b
}

/// The given percentage of a fixed-point number, truncated.  Meaningful for
/// `a >= 0` and `p >= 0`.
pub open spec fn pct_spec(a: int, p: int) -> int {
    (a * p) / 100
}

impl Amount {
    /// The amount in subunits, as a mathematical integer.
    pub open spec fn value(self) -> int {
        self.subunits as int
    }

    pub fn zero() -> (r: Amount)
        ensures
            r.subunits == 0,
    {
        Amount { subunits: 0 }
    }

    pub fn one() -> (r: Amount)
        ensures
            r.subunits == AMOUNT_ONE,
    {
        Amount { subunits: AMOUNT_ONE }
    }

    pub fn from_subunits(subunits: i128) -> (r: Amount)
        ensures
            r.subunits == subunits,
    {
        Amount { subunits }
    }

    /// A whole number of units.
    pub fn from_units(units: i64) -> (r: Amount)
        ensures
            r.subunits == units * AMOUNT_ONE,
    {
        Amount { subunits: (units as i128) * AMOUNT_ONE }
    }

    pub fn checked_add(self, other: Amount) -> (r: Option<Amount>)
        ensures
            match r {
                Some(v) => v.subunits == self.subunits + other.subunits,
                None => !(i128::MIN <= self.subunits + other.subunits <= i128::MAX),
            },
    {
        match self.subunits.checked_add(other.subunits) {
            Some(s) => Some(Amount { subunits: s }),
            None => None,
        }
    }

    pub fn checked_sub(self, other: Amount) -> (r: Option<Amount>)
        ensures
            match r {
                Some(v) => v.subunits == self.subunits - other.subunits,
                None => !(i128::MIN <= self.subunits - other.subunits <= i128::MAX),
            },
    {
        match self.subunits.checked_sub(other.subunits) {
            Some(s) => Some(Amount { subunits: s }),
            None => None,
        }
    }

    /// Fixed-point product, for non-negative operands.
    pub fn checked_mul(self, other: Amount) -> (r: Option<Amount>)
        requires
            self.subunits >= 0,
            other.subunits >= 0,
        ensures
            match r {
                Some(v) => {
                    &&& v.subunits == mul_spec(self.value(), other.value())
                    &&& self.subunits * other.subunits <= i128::MAX
                    &&& v.subunits >= 0
                },
                None => self.subunits * other.subunits > i128::MAX,
            },
    {
        match self.subunits.checked_mul(other.subunits) {
            Some(p) => {
                let q: u128 = (p as u128) / (AMOUNT_ONE as u128);
                Some(Amount { subunits: q as i128 })
            },
            None => None,
        }
    }

    /// Fixed-point quotient, for a non-negative dividend and a positive
    /// divisor.
    pub fn checked_div(self, other: Amount) -> (r: Option<Amount>)
        requires
            self.subunits >= 0,
            other.subunits > 0,
        ensures
            match r {
                Some(v) => {
                    &&& v.subunits == div_spec(self.value(), other.value())
                    &&& self.subunits * AMOUNT_ONE <= i128::MAX
                    &&& v.subunits >= 0
                },
                None => self.subunits * AMOUNT_ONE > i128::MAX,
            },
    {
        match self.subunits.checked_mul(AMOUNT_ONE) {
            Some(p) => {
                let q: u128 = (p as u128) / (other.subunits as u128);
                proof {
                    lemma_div_bound(p as int, other.subunits as int);
                }
                Some(Amount { subunits: q as i128 })
            },
            None => None,
        }
    }

    /// Product with a plain integer factor, without rescaling, for
    /// non-negative operands.
    pub fn checked_scale(self, factor: i128) -> (r: Option<Amount>)
        requires
            self.subunits >= 0,
            factor >= 0,
        ensures
            match r {
                Some(v) => {
                    &&& v.subunits == self.subunits * factor
                    &&& v.subunits >= 0
                },
                None => self.subunits * factor > i128::MAX,
            },
    {
        match self.subunits.checked_mul(factor) {
            Some(p) => Some(Amount { subunits: p }),
            None => None,
        }
    }

    /// Fixed-point product with a plain subunit factor: `self * factor`
    /// rescaled, for non-negative operands.
    pub fn checked_frac(self, factor: i128) -> (r: Option<Amount>)
        requires
            self.subunits >= 0,
            factor >= 0,
        ensures
            match r {
                Some(v) => {
                    &&& v.subunits == mul_spec(self.value(), factor as int)
                    &&& self.subunits * factor <= i128::MAX
                    &&& v.subunits >= 0
                },
                None => self.subunits * factor > i128::MAX,
            },
    {
        match self.subunits.checked_mul(factor) {
            Some(p) => {
                let q: u128 = (p as u128) / (AMOUNT_ONE as u128);
                Some(Amount { subunits: q as i128 })
            },
            None => None,
        }
    }

    /// The given percentage of a non-negative amount, truncated.
    pub fn checked_pct(self, percentage: u8) -> (r: Option<Amount>)
        requires
            self.subunits >= 0,
        ensures
            match r {
                Some(v) => {
                    &&& v.subunits == pct_spec(self.value(), percentage as int)
                    &&& self.subunits * (percentage as int) <= i128::MAX
                    &&& v.subunits >= 0
                    &&& v.subunits <= self.subunits || percentage > 100
                },
                None => self.subunits * (percentage as int) > i128::MAX,
            },
    {
        match self.subunits.checked_mul(percentage as i128) {
            Some(p) => {
                let q: u128 = (p as u128) / 100;
                proof {
                    lemma_div_bound(p as int, 100);
                    if percentage <= 100 {
                        lemma_pct_bounded(self.subunits as int, percentage as int);
                    }
                }
                Some(Amount { subunits: q as i128 })
            },
            None => None,
        }
    }
}

/// For `0 <= a` and `0 < b`, the truncated quotient stays within `[0, a]`.
proof fn lemma_div_bound(a: int, b: int)
    requires
        a >= 0,
        b > 0,
    ensures
        0 <= a / b <= a,
{
    vstd::arithmetic::div_mod::lemma_div_is_ordered_by_denominator(a, 1, b);
    vstd::arithmetic::div_mod::lemma_div_basics(a);
    vstd::arithmetic::div_mod::lemma_div_pos_is_pos(a, b);
}

/// A percentage `p <= 100` of a non-negative value never exceeds the value.
proof fn lemma_pct_bounded(a: int, p: int)
    requires
        a >= 0,
        0 <= p <= 100,
    ensures
        (a * p) / 100 <= a,
{
    assert(a * p <= a * 100) by (nonlinear_arith)
        requires
            a >= 0,
            p <= 100,
    ;
    vstd::arithmetic::div_mod::lemma_div_is_ordered(a * p, a * 100, 100);
    assert((a * 100) / 100 == a) by (nonlinear_arith);
}

} // verus!
