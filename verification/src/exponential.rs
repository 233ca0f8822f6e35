//! The exponential moving average: a weighted blend of the newest observation
//! and the previous average.

use vstd::prelude::*;
use crate::arith::{lemma_quotient_between, mean, mean_of};
use crate::average::MA;
use crate::error::{bootstrap_verdict, check_bootstrap, MaError};

verus! {

/// An exact fraction, used as the weight of the newest observation.
#[derive(Clone, Copy, Debug, PartialEq, Eq, Structural)]
pub struct Ratio {
    pub numerator: u32,
    pub denominator: u32,
}

impl Ratio {
    /// A weight is a fraction in the range from above zero up to one.
    pub open spec fn is_weight(&self) -> bool {
        0 < self.numerator <= self.denominator
    }
}

/// The smoothing multiplier of a period: `2 / (period + 1)`, kept as a fraction
/// so that it is never truncated to an integer.
pub open spec fn multiplier_for(period: nat) -> Ratio {
    Ratio { numerator: 2, denominator: (period + 1) as u32 }
}

/// The blend `price * weight + previous * (1 - weight)`, rounded toward
/// negative infinity.
pub open spec fn blend(previous: int, price: int, weight: Ratio) -> int {
    (price * weight.numerator + previous * (weight.denominator - weight.numerator))
        / (weight.denominator as int)
}

/// A blend lies between any two bounds on the values it blends.
pub proof fn lemma_blend_between(previous: int, price: int, weight: Ratio, lo: int, hi: int)
    requires
        weight.is_weight(),
        lo <= previous <= hi,
        lo <= price <= hi,
    ensures
        lo <= blend(previous, price, weight) <= hi,
{
    let n = weight.numerator as int;
    let d = weight.denominator as int;
    let weighted = price * n + previous * (d - n);
    assert(d * lo <= weighted <= d * hi) by (nonlinear_arith)
        requires
            0 < n <= d,
            lo <= previous <= hi,
            lo <= price <= hi,
            weighted == price * n + previous * (d - n),
    ;
    lemma_quotient_between(weighted, d, lo, hi);
}

/// With a weight of one the blend is the newest observation, whatever the
/// previous average was.
pub proof fn lemma_blend_full_weight(previous: int, price: int, weight: Ratio)
    requires
        weight.is_weight(),
        weight.numerator == weight.denominator,
    ensures
        blend(previous, price, weight) == price,
{
    let d = weight.denominator as int;
    assert(price * d + previous * (d - d) == d * price) by (nonlinear_arith);
    lemma_quotient_between(d * price, d, price, price);
}

/// Computes the blend of the previous average and a new observation.
pub fn blend_of(previous: i64, price: i64, weight: Ratio) -> (average: i64)
    requires
        weight.is_weight(),
    ensures
        average == blend(previous as int, price as int, weight),
{
    let n: i128 = weight.numerator as i128;
    let d: i128 = weight.denominator as i128;
    proof {
        lemma_blend_between(
            previous as int,
            price as int,
            weight,
            i64::MIN as int,
            i64::MAX as int,
        );
        assert(-0x8000_0000_0000_0000 * 0x1_0000_0000 <= price * n <= 0x8000_0000_0000_0000
            * 0x1_0000_0000) by (nonlinear_arith)
            requires
                -0x8000_0000_0000_0000 <= price < 0x8000_0000_0000_0000,
                0 <= n < 0x1_0000_0000,
        ;
        assert(-0x8000_0000_0000_0000 * 0x1_0000_0000 <= previous * (d - n)
            <= 0x8000_0000_0000_0000 * 0x1_0000_0000) by (nonlinear_arith)
            requires
                -0x8000_0000_0000_0000 <= previous < 0x8000_0000_0000_0000,
                0 <= d - n < 0x1_0000_0000,
        ;
    }
    let weighted: i128 = price as i128 * n + previous as i128 * (d - n);
    let quotient: Option<i128> = weighted.checked_div_euclid(d);
    quotient.unwrap() as i64
}

/// Exponential moving average.
///
/// It keeps no history: only the current average and the multiplier that its
/// period determines. Every update rounds the average to a whole tick, so
/// under a price that stays constant the average may come to rest up to half
/// a period's worth of ticks below it: choose the tick fine enough for that
/// not to matter.
#[derive(Debug)]
pub struct Exp {
    period: u16,
    average: i64,
    multiplier: Ratio,
}

impl Exp {
    /// The weight that each new observation is given.
    pub closed spec fn multiplier(&self) -> Ratio {
        self.multiplier
    }

    /// Builds the average from an initial batch of exactly `period`
    /// observations, whose mean becomes the starting average.
    pub fn new(prices: Vec<i64>, period: u16) -> (made: Result<Exp, MaError>)
        ensures
            match made {
                Ok(exp) => {
                    &&& bootstrap_verdict(prices@.len(), period) is Ok
                    &&& exp.wf()
                    &&& exp.period() == period
                    &&& exp.multiplier() == multiplier_for(period as nat)
                    &&& exp.average() == mean(prices@)
                },
                Err(error) => bootstrap_verdict(prices@.len(), period) == Err::<(), MaError>(error),
            },
    {
        match check_bootstrap(prices.len(), period) {
            Err(error) => Err(error),
            Ok(()) => {
                let average: i64 = mean_of(&prices);
                let multiplier = Ratio { numerator: 2, denominator: period as u32 + 1 };
                Ok(Exp { period, average, multiplier })
            },
        }
    }

    /// Reads the multiplier, `2 / (period + 1)`.
    pub fn get_multiplier(&self) -> (weight: Ratio)
        requires
            self.wf(),
        ensures
            weight == self.multiplier(),
            weight.numerator == 2,
            weight.denominator == self.period() + 1,
    {
        self.multiplier
    }
}

/// An update moves the average toward the price and never past it: down by at
/// least a tick from above, and up by at least a tick from below as long as
/// twice the distance to the price exceeds the period.
pub proof fn lemma_average_moves_toward_price(exp: Exp, price: i64)
    requires
        exp.wf(),
    ensures
        price < exp.average() ==> price <= exp.average_after(price) < exp.average(),
        price >= exp.average() ==> exp.average() <= exp.average_after(price) <= price,
        2 * (price - exp.average()) >= exp.period() + 1 ==> exp.average_after(price)
            > exp.average(),
{
    let previous = exp.average();
    let weight = exp.multiplier();
    let d = weight.denominator as int;
    let weighted = price * 2 + previous * (d - 2);
    assert(weighted == d * previous + 2 * (price - previous)) by (nonlinear_arith)
        requires
            weighted == price * 2 + previous * (d - 2),
    ;
    if price < previous {
        lemma_blend_between(previous, price as int, weight, price as int, previous);
        assert(weighted / d < previous) by (nonlinear_arith)
            requires
                d > 0,
                weighted < d * previous,
        ;
    } else {
        lemma_blend_between(previous, price as int, weight, previous, price as int);
    }
    if 2 * (price - previous) >= d {
        assert(d * (previous + 1) == d * previous + d) by (nonlinear_arith);
        assert(d * price >= weighted) by (nonlinear_arith)
            requires
                weighted == d * previous + 2 * (price - previous),
                price >= previous,
                d >= 2,
        ;
        lemma_quotient_between(weighted, d, previous + 1, price as int);
    }
}

impl MA for Exp {
    /// The period is positive and the multiplier is the one it determines.
    open spec fn wf(&self) -> bool {
        &&& self.period() > 0
        &&& self.multiplier() == multiplier_for(self.period())
    }

    closed spec fn period(&self) -> nat {
        self.period as nat
    }

    closed spec fn average(&self) -> int {
        self.average as int
    }

    open spec fn average_after(&self, price: i64) -> int {
        blend(self.average(), price as int, self.multiplier())
    }

    fn new_price(&mut self, price: i64) -> (average: i64)
        ensures
            final(self).multiplier() == old(self).multiplier(),
            old(self).period() == 1 ==> average == price,
    {
        proof {
            if self.period == 1 {
                lemma_blend_full_weight(self.average as int, price as int, self.multiplier);
            }
        }
        self.average = blend_of(self.average, price, self.multiplier);
        self.average
    }

    fn get_average(&self) -> (average: i64) {
        self.average
    }

    fn get_period(&self) -> (period: u16) {
        self.period
    }
}

} // verus!
