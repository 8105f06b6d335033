//! Minimum, maximum and average of the samples of a run.

use crate::sample::Sample;
use vstd::prelude::*;

verus! {

/// The statistics of a run with at least one sample, in whole milliseconds.
#[derive(Clone, Copy, Debug, PartialEq, Eq)]
pub struct Stats {
    /// The shortest duration.
    pub min: u128,
    /// The longest duration.
    pub max: u128,
    /// The sum of the durations divided by their number, rounded down.
    pub avg: u128,
}

/// The whole milliseconds of each of `samples`.
pub open spec fn millis_of(samples: Seq<Sample>) -> Seq<u128> {
    samples.map_values(|s: Sample| s.millis())
}

/// The sum of `values`.
pub open spec fn sum(values: Seq<u128>) -> nat
    decreases values.len(),
{
    if values.len() == 0 {
        0
    } else {
        sum(values.drop_last()) + values.last() as nat
    }
}

/// `value` is one of `values`, and none of them is below it.
pub open spec fn is_minimum(value: u128, values: Seq<u128>) -> bool {
    &&& values.contains(value)
    &&& forall|i: int| 0 <= i < values.len() ==> value <= #[trigger] values[i]
}

/// `value` is one of `values`, and none of them is above it.
pub open spec fn is_maximum(value: u128, values: Seq<u128>) -> bool {
    &&& values.contains(value)
    &&& forall|i: int| 0 <= i < values.len() ==> #[trigger] values[i] <= value
}

/// The sum of `values` divided by their number, rounded down.
pub open spec fn average(values: Seq<u128>) -> nat
    recommends
        values.len() > 0,
{
    sum(values) / values.len()
}

/// The statistics of `samples`.
pub open spec fn describes(stats: Stats, samples: Seq<Sample>) -> bool {
    &&& is_minimum(stats.min, millis_of(samples))
    &&& is_maximum(stats.max, millis_of(samples))
    &&& stats.avg == average(millis_of(samples))
}

/// A quotient and a remainder are those of the one number that they make up.
proof fn lemma_quotient(total: nat, count: nat, quotient: nat, rest: nat)
    requires
        count > 0,
        rest < count,
        quotient * count + rest == total,
    ensures
        total / count == quotient,
{
    vstd::arithmetic::div_mod::lemma_fundamental_div_mod_converse(
        total as int,
        count as int,
        quotient as int,
        rest as int,
    );
}

/// A quotient of a sum of at most `count` values that are at most `bound`
/// each is at most `bound`.
proof fn lemma_quotient_bounded(quotient: nat, rest: nat, count: nat, seen: nat, bound: nat)
    requires
        count > 0,
        seen <= count,
        quotient * count + rest <= seen * bound,
    ensures
        quotient <= bound,
{
    assert(seen * bound <= count * bound) by (nonlinear_arith)
        requires
            seen <= count,
    ;
    assert(quotient <= bound) by (nonlinear_arith)
        requires
            quotient * count <= count * bound,
            count > 0,
    ;
}

/// Minimum, maximum and average of the samples in whole milliseconds, and
/// `None` exactly when there is no sample. The average is the sum divided by
/// the count and rounded down; it is exact however large the sum is.
pub fn calc_stats(response_times: &Vec<Sample>) -> (stats: Option<Stats>)
    ensures
        stats is None <==> response_times@.len() == 0,
        stats is Some ==> describes(stats.unwrap(), response_times@),
{
    let len = response_times.len();
    if len == 0 {
        return None;
    }
    let count: u128 = len as u128;
    let ghost values = millis_of(response_times@);
    let mut min: u128 = u128::MAX;
    let mut max: u128 = 0;
    let mut quotient: u128 = 0;
    let mut rest: u128 = 0;
    let mut i: usize = 0;
    while i < len
        invariant
            len == response_times@.len(),
            count == len,
            count > 0,
            values == millis_of(response_times@),
            i <= len,
            rest < count,
            quotient * count + rest == sum(values.take(i as int)),
            sum(values.take(i as int)) <= i * max,
            i == 0 ==> min == u128::MAX && max == 0,
            i > 0 ==> is_minimum(min, values.take(i as int)),
            i > 0 ==> is_maximum(max, values.take(i as int)),
        decreases len - i,
    {
        let millis = response_times[i].as_millis();
        let ghost seen = values.take(i as int);
        let ghost next = values.take(i + 1);
        let ghost old_max = max;
        let ghost old_min = min;
        assert(next.drop_last() =~= seen);
        if millis < min {
            min = millis;
        }
        if millis > max {
            max = millis;
        }
        proof {
            assert forall|j: int| 0 <= j < next.len() implies min <= #[trigger] next[j] && next[j]
                <= max by {
                if j < i {
                    assert(old_min <= seen[j] <= old_max);
                }
            }
            if min == millis {
                assert(next[i as int] == min);
            } else {
                let at = choose|j: int| 0 <= j < seen.len() && seen[j] == old_min;
                assert(next[at] == min);
            }
            if max == millis {
                assert(next[i as int] == max);
            } else {
                let at = choose|j: int| 0 <= j < seen.len() && seen[j] == old_max;
                assert(next[at] == max);
            }
            assert(sum(next) <= (i + 1) * max) by (nonlinear_arith)
                requires
                    sum(next) == sum(seen) + millis,
                    sum(seen) <= i * old_max,
                    old_max <= max,
                    millis <= max,
            ;
        }
        let part: u128 = millis / count;
        let over: u128 = rest + millis % count;
        let carry: u128 = if over >= count {
            1
        } else {
            0
        };
        proof {
            let q = (quotient + part + carry) as nat;
            let r = (over - carry * count) as nat;
            vstd::arithmetic::div_mod::lemma_fundamental_div_mod(millis as int, count as int);
            assert(q * count + r == sum(next)) by (nonlinear_arith)
                requires
                    q == quotient + part + carry,
                    r == over - carry * count,
                    over == rest + millis % count,
                    part == millis / count,
                    millis == count * (millis / count) + millis % count,
                    quotient * count + rest == sum(seen),
                    sum(next) == sum(seen) + millis,
            ;
            lemma_quotient_bounded(q, r, count as nat, (i + 1) as nat, max as nat);
        }
        quotient = quotient + part + carry;
        rest = over - carry * count;
        i = i + 1;
    }
    proof {
        assert(values.take(len as int) =~= values);
        lemma_quotient(sum(values), count as nat, quotient as nat, rest as nat);
    }
    Some(Stats { min, max, avg: quotient })
}

/// No value of `values` is above one that comes after it.
pub open spec fn ascending(values: Seq<u128>) -> bool {
    forall|i: int, j: int| 0 <= i <= j < values.len() ==> values[i] <= values[j]
}

/// Merges two ascending sequences into one.
fn merge(left: &Vec<u128>, right: &Vec<u128>) -> (merged: Vec<u128>)
    requires
        ascending(left@),
        ascending(right@),
    ensures
        ascending(merged@),
        merged@.to_multiset() == left@.to_multiset().add(right@.to_multiset()),
{
    let mut merged: Vec<u128> = Vec::new();
    let mut i: usize = 0;
    let mut j: usize = 0;
    proof {
        broadcast use vstd::multiset::group_multiset_axioms;

        assert(left@.take(0) =~= merged@ && right@.take(0) =~= merged@);
        merged@.to_multiset_ensures();
    }
    while i < left.len() || j < right.len()
        invariant
            i <= left@.len(),
            j <= right@.len(),
            ascending(left@),
            ascending(right@),
            ascending(merged@),
            merged@.to_multiset() == left@.take(i as int).to_multiset().add(
                right@.take(j as int).to_multiset(),
            ),
            forall|k: int|
                0 <= k < merged@.len() && i < left@.len() ==> #[trigger] merged@[k]
                    <= left@[i as int],
            forall|k: int|
                0 <= k < merged@.len() && j < right@.len() ==> #[trigger] merged@[k]
                    <= right@[j as int],
        decreases left@.len() - i + right@.len() - j,
    {
        let ghost taken_left = left@.take(i as int);
        let ghost taken_right = right@.take(j as int);
        let from_left = j >= right.len() || (i < left.len() && left[i] <= right[j]);
        if from_left {
            let value = left[i];
            proof {
                vstd::seq_lib::to_multiset_build(merged@, value);
                vstd::seq_lib::to_multiset_build(taken_left, value);
                assert(taken_left.push(value) =~= left@.take(i + 1));
                assert(merged@.to_multiset().insert(value) =~= taken_left.push(
                    value,
                ).to_multiset().add(taken_right.to_multiset()));
            }
            merged.push(value);
            i = i + 1;
        } else {
            let value = right[j];
            proof {
                vstd::seq_lib::to_multiset_build(merged@, value);
                vstd::seq_lib::to_multiset_build(taken_right, value);
                assert(taken_right.push(value) =~= right@.take(j + 1));
                assert(merged@.to_multiset().insert(value) =~= taken_left.to_multiset().add(
                    taken_right.push(value).to_multiset(),
                ));
            }
            merged.push(value);
            j = j + 1;
        }
    }
    assert(left@.take(i as int) =~= left@ && right@.take(j as int) =~= right@);
    merged
}

/// Sorts by halving and merging.
fn merge_sort(values: Vec<u128>) -> (sorted: Vec<u128>)
    ensures
        ascending(sorted@),
        sorted@.to_multiset() == values@.to_multiset(),
    decreases values@.len(),
{
    let len = values.len();
    if len <= 1 {
        return values;
    }
    let mut left = values;
    let right = left.split_off(len / 2);
    proof {
        assert(values@ =~= left@ + right@);
        vstd::seq_lib::lemma_multiset_commutative(left@, right@);
    }
    let left = merge_sort(left);
    let right = merge_sort(right);
    merge(&left, &right)
}

/// The samples in whole milliseconds, in ascending order: the same values,
/// each as often as among the samples.
pub fn sorted_millis(response_times: &Vec<Sample>) -> (sorted: Vec<u128>)
    ensures
        ascending(sorted@),
        sorted@.to_multiset() == millis_of(response_times@).to_multiset(),
{
    let len = response_times.len();
    let mut values: Vec<u128> = Vec::new();
    let mut i: usize = 0;
    while i < len
        invariant
            len == response_times@.len(),
            i <= len,
            values@ =~= millis_of(response_times@).take(i as int),
        decreases len - i,
    {
        values.push(response_times[i].as_millis());
        i = i + 1;
    }
    assert(values@ =~= millis_of(response_times@));
    merge_sort(values)
}

/// A sequence of samples has one minimum, one maximum and one average: two
/// statistics of the same samples are equal.
pub proof fn lemma_stats_unique(a: Stats, b: Stats, samples: Seq<Sample>)
    requires
        describes(a, samples),
        describes(b, samples),
    ensures
        a == b,
{
    let values = millis_of(samples);
    let at_a_min = choose|i: int| 0 <= i < values.len() && values[i] == a.min;
    let at_b_min = choose|i: int| 0 <= i < values.len() && values[i] == b.min;
    assert(b.min <= values[at_a_min] && a.min <= values[at_b_min]);
    let at_a_max = choose|i: int| 0 <= i < values.len() && values[i] == a.max;
    let at_b_max = choose|i: int| 0 <= i < values.len() && values[i] == b.max;
    assert(values[at_a_max] <= b.max && values[at_b_max] <= a.max);
}

/// The sum of values lies between their number times a value that none of
/// them is below and their number times a value that none of them is above.
proof fn lemma_sum_between(values: Seq<u128>, low: u128, high: u128)
    requires
        forall|i: int| 0 <= i < values.len() ==> low <= #[trigger] values[i] <= high,
    ensures
        values.len() * low <= sum(values) <= values.len() * high,
    decreases values.len(),
{
    if values.len() > 0 {
        let before = values.drop_last();
        assert forall|i: int| 0 <= i < before.len() implies low <= #[trigger] before[i]
            <= high by {
            assert(before[i] == values[i]);
        }
        lemma_sum_between(before, low, high);
        let n = before.len() as int;
        assert((n + 1) * low == n * low + low && (n + 1) * high == n * high + high)
            by (nonlinear_arith);
    }
}

/// The average of samples lies between their minimum and their maximum.
pub proof fn lemma_average_between(stats: Stats, samples: Seq<Sample>)
    requires
        describes(stats, samples),
    ensures
        stats.min <= stats.avg <= stats.max,
{
    let values = millis_of(samples);
    let count = values.len() as int;
    let total = sum(values) as int;
    let (min, max) = (stats.min as int, stats.max as int);
    assert(count > 0) by {
        assert(values.contains(stats.min));
    }
    lemma_sum_between(values, stats.min, stats.max);
    vstd::arithmetic::div_mod::lemma_fundamental_div_mod(total, count);
    vstd::arithmetic::div_mod::lemma_mod_bound(total, count);
    assert(min <= total / count <= max) by (nonlinear_arith)
        requires
            count > 0,
            count * min <= total <= count * max,
            total == count * (total / count) + total % count,
            0 <= total % count < count,
    ;
}

} // verus!
