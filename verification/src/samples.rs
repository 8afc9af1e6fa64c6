//! Sums and maxima of latency samples, as mathematical sequences of
//! nanosecond counts, and the facts about them that the measurement relies on.

use vstd::prelude::*;

verus! {

/// The sum of all samples; zero for no samples.
pub open spec fn sum(samples: Seq<nat>) -> nat
    decreases samples.len(),
{
    if samples.len() == 0 {
        0
    } else {
        sum(samples.drop_last()) + samples.last()
    }
}

/// The largest sample; zero for no samples.
pub open spec fn maximum(samples: Seq<nat>) -> nat
    decreases samples.len(),
{
    if samples.len() == 0 {
        0
    } else if samples.last() > maximum(samples.drop_last()) {
        samples.last()
    } else {
        maximum(samples.drop_last())
    }
}

/// The mean of the samples, rounded down to a whole nanosecond. Without
/// samples there is no mean, and the value is left unspecified.
pub open spec fn average(samples: Seq<nat>) -> nat
    recommends
        samples.len() > 0,
{
    sum(samples) / samples.len()
}

/// `maximum` is an upper bound of the samples, and one of them where there
/// are any.
pub proof fn lemma_maximum_is_greatest(samples: Seq<nat>)
    ensures
        forall|i: int| 0 <= i < samples.len() ==> samples[i] <= maximum(samples),
        samples.len() > 0 ==> exists|i: int| 0 <= i < samples.len() && samples[i] == maximum(samples),
        samples.len() == 0 ==> maximum(samples) == 0,
    decreases samples.len(),
{
    if samples.len() > 0 {
        let rest = samples.drop_last();
        lemma_maximum_is_greatest(rest);
        assert forall|i: int| 0 <= i < samples.len() implies samples[i] <= maximum(samples) by {
            if i < rest.len() {
                assert(rest[i] == samples[i]);
            }
        }
        if samples.last() > maximum(rest) || rest.len() == 0 {
            assert(samples[samples.len() - 1] == maximum(samples));
        } else {
            let i = choose|i: int| 0 <= i < rest.len() && rest[i] == maximum(rest);
            assert(samples[i] == maximum(samples));
        }
    }
}

/// The sum of two runs of samples laid end to end is the sum of their sums.
pub proof fn lemma_sum_concat(first: Seq<nat>, second: Seq<nat>)
    ensures
        sum(first + second) == sum(first) + sum(second),
    decreases second.len(),
{
    if second.len() == 0 {
        assert(first + second =~= first);
    } else {
        assert((first + second).drop_last() =~= first + second.drop_last());
        lemma_sum_concat(first, second.drop_last());
    }
}

/// The maximum of two runs of samples laid end to end is the larger of their
/// maxima.
pub proof fn lemma_maximum_concat(first: Seq<nat>, second: Seq<nat>)
    ensures
        maximum(first + second) == if maximum(first) >= maximum(second) {
            maximum(first)
        } else {
            maximum(second)
        },
    decreases second.len(),
{
    if second.len() == 0 {
        assert(first + second =~= first);
    } else {
        assert((first + second).drop_last() =~= first + second.drop_last());
        lemma_maximum_concat(first, second.drop_last());
    }
}

/// Adding one sample adds it to the sum and raises the maximum to it where
/// it is larger.
pub proof fn lemma_push(samples: Seq<nat>, sample: nat)
    ensures
        sum(samples.push(sample)) == sum(samples) + sample,
        maximum(samples.push(sample)) == if sample > maximum(samples) {
            sample
        } else {
            maximum(samples)
        },
{
    assert(samples.push(sample).drop_last() =~= samples);
}

/// No sum exceeds the number of samples times the largest of them.
pub proof fn lemma_sum_bounded_by_maximum(samples: Seq<nat>)
    ensures
        sum(samples) <= samples.len() * maximum(samples),
    decreases samples.len(),
{
    if samples.len() > 0 {
        let rest = samples.drop_last();
        lemma_sum_bounded_by_maximum(rest);
        assert(rest.len() * maximum(rest) <= rest.len() * maximum(samples)) by (nonlinear_arith)
            requires
                maximum(rest) <= maximum(samples),
        ;
        assert(rest.len() * maximum(samples) + maximum(samples) == samples.len() * maximum(
            samples,
        )) by (nonlinear_arith)
            requires
                rest.len() + 1 == samples.len(),
        ;
    }
}

/// The average never exceeds the maximum.
pub proof fn lemma_average_at_most_maximum(samples: Seq<nat>)
    requires
        samples.len() > 0,
    ensures
        average(samples) <= maximum(samples),
{
    lemma_sum_bounded_by_maximum(samples);
    let n = samples.len();
    let m = maximum(samples);
    let s = sum(samples);
    assert(s / n <= m) by (nonlinear_arith)
        requires
            n > 0,
            s <= n * m,
    ;
}

/// Of a single sample, the sum, the maximum and the average are that sample.
pub proof fn lemma_single_sample(samples: Seq<nat>)
    requires
        samples.len() == 1,
    ensures
        sum(samples) == samples[0],
        maximum(samples) == samples[0],
        average(samples) == samples[0],
{
    assert(samples.drop_last().len() == 0);
    assert(sum(samples.drop_last()) == 0);
    assert(maximum(samples.drop_last()) == 0);
}

} // verus!
