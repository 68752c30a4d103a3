//! Sums of natural numbers.

use vstd::prelude::*;

verus! {

/// The sum of a sequence of natural numbers.
pub open spec fn sum(values: Seq<nat>) -> nat
    decreases values.len(),
{
    if values.len() == 0 {
        0
    } else {
        sum(values.drop_last()) + values.last()
    }
}

/// Appending a number adds it to the sum.
pub proof fn lemma_sum_push(values: Seq<nat>, x: nat)
    ensures
        sum(values.push(x)) == sum(values) + x,
{
    assert(values.push(x).drop_last() =~= values);
}

/// Replacing a number changes the sum by the difference.
pub proof fn lemma_sum_update(values: Seq<nat>, i: int, x: nat)
    requires
        0 <= i < values.len(),
    ensures
        sum(values.update(i, x)) + values[i] == sum(values) + x,
    decreases values.len(),
{
    if i == values.len() - 1 {
        assert(values.update(i, x).drop_last() =~= values.drop_last());
    } else {
        lemma_sum_update(values.drop_last(), i, x);
        assert(values.update(i, x).drop_last() =~= values.drop_last().update(i, x));
    }
}

/// Taking a number out takes it from the sum.
pub proof fn lemma_sum_remove(values: Seq<nat>, i: int)
    requires
        0 <= i < values.len(),
    ensures
        sum(values.remove(i)) + values[i] == sum(values),
    decreases values.len(),
{
    if i < values.len() - 1 {
        lemma_sum_remove(values.drop_last(), i);
        assert(values.remove(i).drop_last() =~= values.drop_last().remove(i));
    }
}

/// No number in a sequence is larger than the sum.
pub proof fn lemma_sum_bounds_each(values: Seq<nat>, i: int)
    requires
        0 <= i < values.len(),
    ensures
        values[i] <= sum(values),
    decreases values.len(),
{
    if i < values.len() - 1 {
        lemma_sum_bounds_each(values.drop_last(), i);
    }
}

/// The sum of a prefix is no larger than the sum of the whole.
pub proof fn lemma_sum_prefix(values: Seq<nat>, n: int)
    requires
        0 <= n <= values.len(),
    ensures
        sum(values.take(n)) <= sum(values),
    decreases values.len(),
{
    if n == values.len() {
        assert(values.take(n) =~= values);
    } else {
        lemma_sum_prefix(values.drop_last(), n);
        assert(values.drop_last().take(n) =~= values.take(n));
    }
}

} // verus!
