//! What holds of the averages over whole runs of updates.

use vstd::prelude::*;
use crate::arith::sum;
use crate::average::MA;
use crate::exponential::{blend, lemma_blend_full_weight, Exp, Ratio};
use crate::simple::{slide, Sim};

verus! {

/// The window after recording `prices` one by one, in order.
pub open spec fn slide_all(window: Seq<i64>, prices: Seq<i64>) -> Seq<i64>
    decreases prices.len(),
{
    if prices.len() == 0 {
        window
    } else {
        slide(slide_all(window, prices.drop_last()), prices.last())
    }
}

/// The exponential average after recording `prices` one by one, in order.
pub open spec fn blend_all(start: int, prices: Seq<i64>, weight: Ratio) -> int
    decreases prices.len(),
{
    if prices.len() == 0 {
        start
    } else {
        blend(blend_all(start, prices.drop_last(), weight), prices.last() as int, weight)
    }
}

/// Sliding keeps the length of a window, however many observations arrive.
pub proof fn lemma_slide_all_keeps_length(window: Seq<i64>, prices: Seq<i64>)
    requires
        window.len() > 0,
    ensures
        slide_all(window, prices).len() == window.len(),
    decreases prices.len(),
{
    if prices.len() > 0 {
        lemma_slide_all_keeps_length(window, prices.drop_last());
    }
}

/// However many observations a simple average records, its window holds
/// exactly `period` of them, and so never more.
pub proof fn lemma_window_never_exceeds_period(sim: Sim, prices: Seq<i64>)
    requires
        sim.wf(),
    ensures
        slide_all(sim@, prices).len() == sim.period(),
        slide_all(sim@, prices).len() <= sim.period(),
{
    lemma_slide_all_keeps_length(sim@, prices);
}

/// After any run of updates the window holds the most recent observations,
/// oldest first: the tail of the starting window followed by what was recorded.
pub proof fn lemma_window_is_most_recent(window: Seq<i64>, prices: Seq<i64>)
    requires
        window.len() > 0,
    ensures
        slide_all(window, prices) == (window + prices).subrange(
            prices.len() as int,
            (prices.len() + window.len()) as int,
        ),
    decreases prices.len(),
{
    if prices.len() > 0 {
        lemma_window_is_most_recent(window, prices.drop_last());
    }
}

/// A sum can be taken from the front as well as from the back.
pub proof fn lemma_sum_from_front(batch: Seq<i64>)
    requires
        batch.len() > 0,
    ensures
        sum(batch) == batch.first() + sum(batch.drop_first()),
    decreases batch.len(),
{
    if batch.len() == 1 {
        assert(sum(batch.drop_last()) == 0);
        assert(sum(batch.drop_first()) == 0);
    } else {
        lemma_sum_from_front(batch.drop_last());
        assert(batch.drop_last().drop_first() == batch.drop_first().drop_last());
    }
}

/// An update changes the sum of the window by the difference between what
/// arrives and what leaves, so a running sum kept that way is the sum of the
/// window at every point.
pub proof fn lemma_slide_sum(window: Seq<i64>, price: i64)
    requires
        window.len() > 0,
    ensures
        sum(slide(window, price)) == sum(window) - window.first() + price,
{
    lemma_sum_from_front(window);
    assert(slide(window, price).drop_last() == window.drop_first());
}

/// With a period of one the exponential average equals the most recent
/// observation after every update, whatever came before.
pub proof fn lemma_unit_period_tracks_latest(exp: Exp, prices: Seq<i64>)
    requires
        exp.wf(),
        exp.period() == 1,
        prices.len() > 0,
    ensures
        blend_all(exp.average(), prices, exp.multiplier()) == prices.last(),
{
    lemma_blend_full_weight(
        blend_all(exp.average(), prices.drop_last(), exp.multiplier()),
        prices.last() as int,
        exp.multiplier(),
    );
}

/// Reading the average does not depend on how often it is read: any two
/// results that `get_average` may give for one state are the same.
pub proof fn lemma_reads_agree<M: MA>(average: &M, first: i64, second: i64)
    requires
        average.wf(),
        call_ensures(M::get_average, (average,), first),
        call_ensures(M::get_average, (average,), second),
    ensures
        first == second,
{
}

} // verus!
