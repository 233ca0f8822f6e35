//! The simple moving average: the mean of a sliding window.

use vstd::prelude::*;
use crate::arith::{mean, mean_of};
use crate::average::MA;
use crate::error::{bootstrap_verdict, check_bootstrap, MaError};

verus! {

/// The window after one update: the oldest observation leaves at the front,
/// the others keep their order, and the new one arrives at the back.
pub open spec fn slide(window: Seq<i64>, price: i64) -> Seq<i64>
    recommends
        window.len() > 0,
{
    window.drop_first().push(price)
}

/// Simple moving average.
///
/// It owns a window of the most recent `period` observations, oldest first,
/// and its average is the mean of that window.
#[derive(Debug)]
pub struct Sim {
    prices: Vec<i64>,
    period: u16,
    average: i64,
}

impl View for Sim {
    type V = Seq<i64>;

    /// The window, oldest observation first.
    closed spec fn view(&self) -> Seq<i64> {
        self.prices@
    }
}

impl Sim {
    /// Builds the average from an initial batch, which becomes the first
    /// window and must hold exactly `period` observations.
    pub fn new(prices: Vec<i64>, period: u16) -> (made: Result<Sim, MaError>)
        ensures
            match made {
                Ok(sim) => {
                    &&& bootstrap_verdict(prices@.len(), period) is Ok
                    &&& sim.wf()
                    &&& sim.period() == period
                    &&& sim@ == prices@
                    &&& sim.average() == mean(prices@)
                },
                Err(error) => bootstrap_verdict(prices@.len(), period) == Err::<(), MaError>(error),
            },
    {
        match check_bootstrap(prices.len(), period) {
            Err(error) => Err(error),
            Ok(()) => {
                let average: i64 = mean_of(&prices);
                Ok(Sim { prices, period, average })
            },
        }
    }

    /// Reads the window, oldest observation first.
    pub fn get_window(&self) -> (window: &Vec<i64>)
        ensures
            window@ == self@,
    {
        &self.prices
    }
}

impl MA for Sim {
    /// The window holds exactly `period` observations, and the stored average
    /// is their mean.
    open spec fn wf(&self) -> bool {
        &&& self.period() > 0
        &&& self@.len() == self.period()
        &&& self.average() == mean(self@)
    }

    closed spec fn period(&self) -> nat {
        self.period as nat
    }

    closed spec fn average(&self) -> int {
        self.average as int
    }

    open spec fn average_after(&self, price: i64) -> int {
        mean(slide(self@, price))
    }

    fn new_price(&mut self, price: i64) -> (average: i64)
        ensures
            final(self)@ == slide(old(self)@, price),
    {
        self.prices.remove(0);
        self.prices.push(price);
        self.average = mean_of(&self.prices);
        self.average
    }

    fn get_average(&self) -> (average: i64) {
        self.average
    }

    fn get_period(&self) -> (period: u16) {
        self.period
    }
}

} // verus!
