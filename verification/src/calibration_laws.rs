//! What a settled level is, told by the readings themselves.

use vstd::prelude::*;
use crate::calibration::{
    first_reading, readings, rpm_values, settled, settled_median_from, settled_window,
    stable_median, CalibrationObservationError, CalibrationReadbackSample, LevelModel, SettledLevel,
};
use crate::order::{sorted, sorted_orders_the_same_values};

verus! {

/// Readings are stable exactly where there are at least three of them and no two differ by more
/// than a tenth of the median or 50 revolutions per minute, whichever is more. What they tell is
/// the median: the one in the middle of the readings in ascending order, the upper of two.
pub proof fn stable_readings_differ_little(rpms: Seq<u32>, ordered: Seq<i64>)
    requires
        forall|i: int, j: int| 0 <= i <= j < ordered.len() ==> ordered[i] <= ordered[j],
        ordered.to_multiset() == rpms.map_values(|rpm: u32| rpm as i64).to_multiset(),
    ensures
        ordered.len() == rpms.len(),
        stable_median(rpms) is Some <==> rpms.len() >= 3 && forall|i: int, j: int|
            0 <= i < rpms.len() && 0 <= j < rpms.len() ==> {
                ||| #[trigger] rpms[i] - #[trigger] rpms[j] <= 50
                ||| 10 * (rpms[i] - rpms[j]) <= ordered[rpms.len() as int / 2]
            },
        stable_median(rpms) matches Some(median) ==> median == ordered[rpms.len() as int / 2],
        stable_median(rpms) matches Some(median) ==> rpms.contains(median),
{
    broadcast use vstd::seq_lib::group_to_multiset_ensures;

    let values = rpm_values(rpms);
    assert(values =~= rpms.map_values(|rpm: u32| rpm as i64));
    let all = sorted(values);
    sorted_orders_the_same_values(values);
    let leq = |a: i64, b: i64| a <= b;
    assert(vstd::relations::sorted_by(all, leq));
    assert(vstd::relations::sorted_by(ordered, leq));
    vstd::seq_lib::lemma_sorted_unique(all, ordered, leq);
    if rpms.len() >= 3 {
        let median = ordered[rpms.len() as int / 2];
        assert forall|i: int, j: int| 0 <= i < rpms.len() && 0 <= j < rpms.len() implies #[trigger] rpms[i]
            - #[trigger] rpms[j] <= all.last() - all[0] by {
            crate::order::sorted_ends_bound_the_values(values, i);
            crate::order::sorted_ends_bound_the_values(values, j);
        }
        assert(all.contains(all[0]) && all.contains(all.last()) && all.contains(median));
        assert(all.to_multiset().count(all[0]) > 0);
        assert(all.to_multiset().count(all.last()) > 0);
        assert(all.to_multiset().count(median) > 0);
        assert(values.contains(all[0]) && values.contains(all.last()) && values.contains(median));
        let low = choose|k: int| 0 <= k < values.len() && values[k] == all[0];
        let high = choose|k: int| 0 <= k < values.len() && values[k] == all.last();
        let middle = choose|k: int| 0 <= k < values.len() && values[k] == median;
        assert(rpms[high] - rpms[low] == all.last() - all[0]);
        assert(rpms[middle] == median);
        assert(median * 10 / 100 == median / 10);
    }
}

/// A settled level ends in a window of samples in which the fan ran steadily. The window reaches to
/// the last sample, holds at least three over at least one second, a quarter of a second to two
/// seconds apart, and each carries a reading of 300 to 10000 revolutions per minute. No two of these
/// differ by more than a tenth of the median or 50, and the median is one of them. The level took as
/// long to settle as its last sample came after its command: one to ten seconds.
pub proof fn settled_levels_ran_steadily(observation: LevelModel, level: SettledLevel)
    requires
        settled(observation) == Ok::<_, CalibrationObservationError>(Some(level)),
    ensures
        ({
            let samples = observation.samples;
            let elapsed = samples.last().monotonic_millis - observation.commanded_at;
            &&& 1_000 <= elapsed <= 10_000
            &&& level.response_millis == elapsed
            &&& forall|i: int|
                0 <= i < samples.len() - 1 ==> 1 <= (#[trigger] samples[i + 1]).monotonic_millis
                    - samples[i].monotonic_millis <= 2_000
            &&& exists|start: int|
                {
                    &&& 0 <= start <= samples.len() - 3
                    &&& samples.last().monotonic_millis - (#[trigger] samples[start]).monotonic_millis
                        >= 1_000
                    &&& forall|i: int|
                        start <= i < samples.len() - 1 ==> (
                        #[trigger] samples[i + 1]).monotonic_millis - samples[i].monotonic_millis
                            >= 250
                    &&& forall|i: int|
                        start <= i < samples.len() ==> {
                            &&& (#[trigger] samples[i]).selected_rpm matches Some(rpm)
                            &&& 300 <= rpm <= 10_000
                        }
                    &&& forall|i: int, j: int|
                        start <= i < samples.len() && start <= j < samples.len() ==> {
                            let gap = (#[trigger] samples[i]).selected_rpm->0 - (
                            #[trigger] samples[j]).selected_rpm->0;
                            gap <= 50 || 10 * gap <= level.median_rpm
                        }
                    &&& exists|i: int|
                        start <= i < samples.len() && (#[trigger] samples[i]).selected_rpm == Some(
                            level.median_rpm,
                        )
                }
        }),
{
    let samples = observation.samples;
    let first = first_reading(samples) as int;
    lemma_settled_from(samples, first);
    let start = choose|start: int|
        {
            &&& first <= start < samples.len()
            &&& settled_window(#[trigger] samples.skip(start))
            &&& stable_median(readings(samples.skip(start))) == Some(level.median_rpm)
        };
    let window = samples.skip(start);
    let rpms = readings(window);
    let outer = samples.skip(first);
    lemma_stable(rpms);
    assert(samples[start] == window[0]);
    assert(window.last() == samples.last());
    assert forall|i: int| start <= i < samples.len() - 1 implies (
    #[trigger] samples[i + 1]).monotonic_millis - samples[i].monotonic_millis >= 250 by {
        assert(window[(i - start) + 1] == samples[i + 1]);
        assert(window[i - start] == samples[i]);
    }
    assert forall|i: int| start <= i < samples.len() implies {
        &&& (#[trigger] samples[i]).selected_rpm matches Some(rpm)
        &&& 300 <= rpm <= 10_000
    } by {
        assert(outer[i - first] == samples[i]);
    }
    assert forall|i: int, j: int| start <= i < samples.len() && start <= j < samples.len() implies {
        let gap = (#[trigger] samples[i]).selected_rpm->0 - (
        #[trigger] samples[j]).selected_rpm->0;
        gap <= 50 || 10 * gap <= level.median_rpm
    } by {
        assert(rpms[i - start] == samples[i].selected_rpm->0);
        assert(rpms[j - start] == samples[j].selected_rpm->0);
    }
    let k = choose|k: int| 0 <= k < rpms.len() && rpms[k] == level.median_rpm;
    assert(rpms[k] == samples[start + k].selected_rpm->0);
    assert(outer[start + k - first] == samples[start + k]);
    assert(samples[start + k].selected_rpm == Some(level.median_rpm));
}

/// Three or more readings that are stable, told without their order.
proof fn lemma_stable(rpms: Seq<u32>)
    ensures
        stable_median(rpms) matches Some(median) ==> {
            &&& rpms.len() >= 3
            &&& rpms.contains(median)
            &&& forall|i: int, j: int|
                0 <= i < rpms.len() && 0 <= j < rpms.len() ==> {
                    ||| #[trigger] rpms[i] - #[trigger] rpms[j] <= 50
                    ||| 10 * (rpms[i] - rpms[j]) <= median
                }
        },
{
    let values = rpm_values(rpms);
    assert(values =~= rpms.map_values(|rpm: u32| rpm as i64));
    sorted_orders_the_same_values(values);
    stable_readings_differ_little(rpms, sorted(values));
}

proof fn lemma_settled_from(samples: Seq<CalibrationReadbackSample>, from: int)
    requires
        0 <= from,
    ensures
        settled_median_from(samples, from) matches Some(median) ==> exists|start: int|
            {
                &&& from <= start < samples.len()
                &&& settled_window(#[trigger] samples.skip(start))
                &&& stable_median(readings(samples.skip(start))) == Some(median)
            },
    decreases samples.len() - from,
{
    if from < samples.len() {
        let window = samples.skip(from);
        if !(settled_window(window) && stable_median(readings(window)) is Some) {
            lemma_settled_from(samples, from + 1);
        }
    }
}

/// A level whose samples can be judged is settled wherever any trailing window of it ran steadily.
pub proof fn steady_levels_are_settled(observation: LevelModel, start: int, ordered: Seq<i64>)
    requires
        ({
            let samples = observation.samples;
            let window = samples.skip(start);
            &&& 0 <= start <= samples.len() - 3
            &&& 1_000 <= samples.last().monotonic_millis - observation.commanded_at <= 10_000
            &&& samples.last().monotonic_millis - samples[start].monotonic_millis >= 1_000
            &&& forall|i: int|
                0 <= i < samples.len() - 1 ==> 1 <= (#[trigger] samples[i + 1]).monotonic_millis
                    - samples[i].monotonic_millis <= 2_000
            &&& forall|i: int|
                start <= i < samples.len() - 1 ==> (#[trigger] samples[i + 1]).monotonic_millis
                    - samples[i].monotonic_millis >= 250
            &&& forall|i: int|
                0 <= i < samples.len() ==> {
                    &&& (#[trigger] samples[i]).selected_rpm matches Some(rpm)
                    &&& 300 <= rpm <= 10_000
                }
            &&& forall|i: int, j: int|
                0 <= i <= j < ordered.len() ==> ordered[i] <= ordered[j]
            &&& ordered.to_multiset() == window.map_values(
                |s: CalibrationReadbackSample| s.selected_rpm->0 as i64,
            ).to_multiset()
            &&& forall|i: int, j: int|
                start <= i < samples.len() && start <= j < samples.len() ==> {
                    let gap = (#[trigger] samples[i]).selected_rpm->0 - (
                    #[trigger] samples[j]).selected_rpm->0;
                    gap <= 50 || 10 * gap <= ordered[window.len() as int / 2]
                }
        }),
    ensures
        settled(observation) matches Ok(Some(_)),
{
    let samples = observation.samples;
    let window = samples.skip(start);
    let rpms = readings(window);
    assert(window.map_values(|s: CalibrationReadbackSample| s.selected_rpm->0 as i64)
        =~= rpms.map_values(|rpm: u32| rpm as i64));
    stable_readings_differ_little(rpms, ordered);
    assert forall|i: int, j: int| 0 <= i < rpms.len() && 0 <= j < rpms.len() implies {
        ||| #[trigger] rpms[i] - #[trigger] rpms[j] <= 50
        ||| 10 * (rpms[i] - rpms[j]) <= ordered[rpms.len() as int / 2]
    } by {
        assert(rpms[i] == samples[start + i].selected_rpm->0);
        assert(rpms[j] == samples[start + j].selected_rpm->0);
    }
    assert(samples[0].selected_rpm is Some);
    assert(first_reading(samples) == 0);
    assert(samples.skip(0) =~= samples);
    assert forall|i: int| 0 <= i < window.len() - 1 implies (
    #[trigger] window[i + 1]).monotonic_millis - window[i].monotonic_millis >= 250 by {
        assert(samples[(start + i) + 1] == window[i + 1]);
    }
    assert(window.last() == samples.last());
    assert(settled_window(window));
    lemma_settled_somewhere(samples, 0, start);
}

proof fn lemma_settled_somewhere(
    samples: Seq<CalibrationReadbackSample>,
    from: int,
    start: int,
)
    requires
        0 <= from <= start < samples.len(),
        settled_window(samples.skip(start)),
        stable_median(readings(samples.skip(start))) is Some,
    ensures
        settled_median_from(samples, from) is Some,
    decreases start - from,
{
    if from < start {
        lemma_settled_somewhere(samples, from + 1, start);
    }
}

} // verus!
