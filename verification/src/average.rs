//! The capability that both averaging strategies offer.

use vstd::prelude::*;

verus! {

/// A moving average over a stream of prices: it accepts one observation at a
/// time, and reports the current average and the period it was built with.
///
/// Recording an observation returns the new average, for every strategy, so a
/// caller needs no second call to read it.
pub trait MA {
    /// Holds of every instance that a constructor returned, and after every
    /// update of one.
    spec fn wf(&self) -> bool;

    /// The number of observations that the average was configured with.
    spec fn period(&self) -> nat;

    /// The most recently computed average.
    spec fn average(&self) -> int;

    /// The average that recording `price` leads to.
    spec fn average_after(&self, price: i64) -> int;

    /// Records one observation and returns the new average. The period never
    /// changes.
    fn new_price(&mut self, price: i64) -> (average: i64)
        requires
            old(self).wf(),
        ensures
            final(self).wf(),
            final(self).period() == old(self).period(),
            final(self).average() == old(self).average_after(price),
            average == final(self).average(),
    ;

    /// Reads the current average. It is defined from construction on, before
    /// any further observation has been recorded.
    fn get_average(&self) -> (average: i64)
        requires
            self.wf(),
        ensures
            average == self.average(),
    ;

    /// Reads the period, which is fixed at construction and never zero.
    fn get_period(&self) -> (period: u16)
        requires
            self.wf(),
        ensures
            period == self.period(),
            period > 0,
    ;
}

} // verus!
