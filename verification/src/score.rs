//! Scores with one decimal digit, and exact rounding of fractions to them.

use vstd::prelude::*;
use vstd::arithmetic::div_mod::{lemma_fundamental_div_mod, lemma_mod_bound};
use crate::Severity;

verus! {

/// A score with exactly one decimal digit, held as its number of tenths: `98` stands for 9.8.
#[derive(Clone, Copy, Debug, PartialEq, Eq, Structural)]
pub struct Score {
    pub tenths: u8,
}

/// An exact fraction `num / den` with a positive denominator.
pub ghost struct Fraction {
    pub num: int,
    pub den: int,
}

/// The fraction `num / den` rounded to the nearest integer, a half rounding up.
pub open spec fn round_half_up(num: int, den: int) -> int
    recommends
        den > 0,
{
    (2 * num + den) / (2 * den)
}

/// The qualitative rating of a score on the five-step scale of versions 3.x and 4.0.
pub open spec fn rating(tenths: int) -> Severity {
    if tenths <= 0 {
        Severity::NoneValue
    } else if tenths < 40 {
        Severity::Low
    } else if tenths < 70 {
        Severity::Medium
    } else if tenths < 90 {
        Severity::High
    } else {
        Severity::Critical
    }
}

/// The qualitative rating of a score on the three-step scale of version 2.0.
pub open spec fn rating_v2(tenths: int) -> Severity {
    if tenths < 40 {
        Severity::Low
    } else if tenths < 70 {
        Severity::Medium
    } else {
        Severity::High
    }
}

impl Score {
    /// The score with the given number of tenths.
    pub fn from_tenths(tenths: u8) -> (r: Score)
        ensures
            r.tenths == tenths,
    {
        Score { tenths }
    }

    /// The number of tenths: 98 for 9.8.
    pub fn tenths(&self) -> (r: u8)
        ensures
            r == self.tenths,
    {
        self.tenths
    }

    /// The digits before the decimal point.
    pub fn whole(&self) -> (r: u8)
        ensures
            r == self.tenths / 10,
    {
        self.tenths / 10
    }

    /// The digit after the decimal point.
    pub fn fraction(&self) -> (r: u8)
        ensures
            r == self.tenths % 10,
    {
        self.tenths % 10
    }

    /// The rating on the five-step scale of versions 3.x and 4.0.
    pub fn severity(&self) -> (r: Severity)
        ensures
            r == rating(self.tenths as int),
    {
        if self.tenths == 0 {
            Severity::NoneValue
        } else if self.tenths < 40 {
            Severity::Low
        } else if self.tenths < 70 {
            Severity::Medium
        } else if self.tenths < 90 {
            Severity::High
        } else {
            Severity::Critical
        }
    }

    /// The rating on the three-step scale of version 2.0.
    pub fn severity_v2(&self) -> (r: Severity)
        ensures
            r == rating_v2(self.tenths as int),
    {
        if self.tenths < 40 {
            Severity::Low
        } else if self.tenths < 70 {
            Severity::Medium
        } else {
            Severity::High
        }
    }
}

/// A number of tenths kept on the scale: at least 0 and at most 100.
pub open spec fn on_scale(tenths: int) -> int {
    if tenths < 0 {
        0
    } else if tenths > 100 {
        100
    } else {
        tenths
    }
}

/// Rounding keeps the order of a fraction and a whole number.
pub proof fn lemma_round_half_up_order(num: int, den: int, k: int)
    requires
        den > 0,
    ensures
        num <= k * den ==> round_half_up(num, den) <= k,
        num >= k * den ==> round_half_up(num, den) >= k,
{
    let d = 2 * den;
    let n = 2 * num + den;
    let q = round_half_up(num, den);
    lemma_fundamental_div_mod(n, d);
    lemma_mod_bound(n, d);
    assert(d * q <= n < d * q + d);
    if num <= k * den {
        assert(q <= k) by (nonlinear_arith)
            requires
                d == 2 * den,
                den > 0,
                d * q <= n,
                n == 2 * num + den,
                num <= k * den,
        ;
    }
    if num >= k * den {
        assert(q >= k) by (nonlinear_arith)
            requires
                d == 2 * den,
                den > 0,
                n < d * q + d,
                n == 2 * num + den,
                num >= k * den,
        ;
    }
}

/// Rounds the fraction `num / den` of tenths to a score, a half rounding up, and keeps it
/// on the scale from 0.0 to 10.0.
pub fn round_on_scale(num: i128, den: i128) -> (r: Score)
    requires
        0 < den <= 0x1000_0000_0000_0000_0000_0000_0000,
    ensures
        r.tenths == on_scale(round_half_up(num as int, den as int)),
        r.tenths <= 100,
{
    proof {
        lemma_round_half_up_order(num as int, den as int, 0);
        lemma_round_half_up_order(num as int, den as int, 100);
    }
    if num <= 0 {
        return Score { tenths: 0 };
    }
    if num >= 100 * den {
        return Score { tenths: 100 };
    }
    let q: i128 = (2 * num + den) / (2 * den);
    Score { tenths: q as u8 }
}

} // verus!
