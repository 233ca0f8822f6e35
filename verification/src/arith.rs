//! The arithmetic that the averages are defined by, and the facts about it that
//! keep the executable code within machine integers.

use vstd::prelude::*;

verus! {

/// The sum of a batch of observations.
pub open spec fn sum(batch: Seq<i64>) -> int
    decreases batch.len(),
{
    if batch.len() == 0 {
        0
    } else {
        sum(batch.drop_last()) + batch.last()
    }
}

/// The arithmetic mean of a non-empty batch, rounded toward negative infinity.
pub open spec fn mean(batch: Seq<i64>) -> int
    recommends
        batch.len() > 0,
{
    sum(batch) / (batch.len() as int)
}

/// A sum of `n` terms that all lie in `lo..=hi` lies in `n * lo..=n * hi`.
pub proof fn lemma_sum_between(batch: Seq<i64>, lo: int, hi: int)
    requires
        forall|i: int| 0 <= i < batch.len() ==> lo <= #[trigger] batch[i] <= hi,
    ensures
        batch.len() * lo <= sum(batch) <= batch.len() * hi,
    decreases batch.len(),
{
    if batch.len() > 0 {
        let rest = batch.drop_last();
        lemma_sum_between(rest, lo, hi);
        assert(batch.len() * lo == rest.len() * lo + lo) by (nonlinear_arith)
            requires
                batch.len() == rest.len() + 1,
        ;
        assert(batch.len() * hi == rest.len() * hi + hi) by (nonlinear_arith)
            requires
                batch.len() == rest.len() + 1,
        ;
    } else {
        assert(batch.len() * lo == 0 && batch.len() * hi == 0) by (nonlinear_arith)
            requires
                batch.len() == 0,
        ;
    }
}

/// A quotient by a positive divisor lies between two bounds as soon as the
/// dividend lies between their multiples.
pub proof fn lemma_quotient_between(dividend: int, divisor: int, lo: int, hi: int)
    requires
        divisor > 0,
        divisor * lo <= dividend <= divisor * hi,
    ensures
        lo <= dividend / divisor <= hi,
{
    let q = dividend / divisor;
    let r = dividend % divisor;
    assert(dividend == divisor * q + r && 0 <= r < divisor) by (nonlinear_arith)
        requires
            divisor > 0,
            q == dividend / divisor,
            r == dividend % divisor,
    ;
    assert(lo <= q) by (nonlinear_arith)
        requires
            divisor > 0,
            divisor * lo <= divisor * q + r,
            r < divisor,
    ;
    assert(q <= hi) by (nonlinear_arith)
        requires
            divisor > 0,
            divisor * q + r <= divisor * hi,
            0 <= r,
    ;
}

/// The mean of a non-empty batch lies between any two bounds on its members.
pub proof fn lemma_mean_between(batch: Seq<i64>, lo: int, hi: int)
    requires
        batch.len() > 0,
        forall|i: int| 0 <= i < batch.len() ==> lo <= #[trigger] batch[i] <= hi,
    ensures
        lo <= mean(batch) <= hi,
{
    lemma_sum_between(batch, lo, hi);
    lemma_quotient_between(sum(batch), batch.len() as int, lo, hi);
}

/// Adds up a batch of observations.
pub(crate) fn sum_of(batch: &Vec<i64>) -> (total: i128)
    ensures
        total == sum(batch@),
{
    let mut total: i128 = 0;
    let mut i: usize = 0;
    while i < batch.len()
        invariant
            i <= batch.len(),
            total == sum(batch@.take(i as int)),
            i * i64::MIN <= total <= i * i64::MAX,
        decreases batch.len() - i,
    {
        proof {
            let seen = batch@.take(i + 1);
            assert(seen.drop_last() == batch@.take(i as int));
            assert(seen.last() == batch@[i as int]);
        }
        total = total + batch[i] as i128;
        i = i + 1;
    }
    proof {
        assert(batch@.take(batch.len() as int) == batch@);
    }
    total
}

/// Computes the mean of a non-empty batch, rounded toward negative infinity.
pub(crate) fn mean_of(batch: &Vec<i64>) -> (average: i64)
    requires
        batch.len() > 0,
    ensures
        average == mean(batch@),
{
    let total: i128 = sum_of(batch);
    let count: i128 = batch.len() as i128;
    proof {
        lemma_mean_between(batch@, i64::MIN as int, i64::MAX as int);
    }
    let quotient: Option<i128> = total.checked_div_euclid(count);
    quotient.unwrap() as i64
}

} // verus!
