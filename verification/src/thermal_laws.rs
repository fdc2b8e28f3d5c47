//! Peaks, percentiles and comparisons, told by the temperatures themselves.

use vstd::prelude::*;
use crate::evidence::{TelemetrySampleEvidence, ThermalSummaryModel, WorkloadModel};
use crate::matched_plan::{comparison_of, conditions_are_comparable, spans_five_minutes};
use crate::order::{sorted, sorted_ends_bound_the_values, sorted_orders_the_same_values};
use crate::thermal::{
    cpu_temperatures, gpu_temperatures, peak, percentile_95, thermal_summary, FinalSlopes,
};

verus! {

/// The temperatures of a series grow by those of one more sample: by its temperature where it carries
/// one, and not at all where it carries none.
pub proof fn temperatures_grow_by_the_sample(
    samples: Seq<TelemetrySampleEvidence>,
    sample: TelemetrySampleEvidence,
)
    ensures
        cpu_temperatures(Seq::empty()).len() == 0,
        gpu_temperatures(Seq::empty()).len() == 0,
        cpu_temperatures(samples.push(sample)) == match sample.cpu_millicelsius {
            Some(value) => cpu_temperatures(samples).push(value as i64),
            None => cpu_temperatures(samples),
        },
        gpu_temperatures(samples.push(sample)) == match sample.gpu_millicelsius {
            Some(value) => gpu_temperatures(samples).push(value as i64),
            None => gpu_temperatures(samples),
        },
{
    assert(samples.push(sample).drop_last() =~= samples);
}

/// The peak is one of the temperatures, and none exceeds it.
pub proof fn peaks_are_reached(values: Seq<i64>)
    requires
        values.len() > 0,
    ensures
        values.contains(peak(values)),
        forall|i: int| 0 <= i < values.len() ==> #[trigger] values[i] <= peak(values),
{
    broadcast use vstd::seq_lib::group_to_multiset_ensures;

    let all = sorted(values);
    sorted_orders_the_same_values(values);
    assert(all.contains(all.last()));
    assert(all.to_multiset().count(all.last()) > 0);
    assert(values.contains(all.last()));
    assert forall|i: int| 0 <= i < values.len() implies #[trigger] values[i] <= peak(values) by {
        sorted_ends_bound_the_values(values, i);
    }
}

/// The 95th percentile stands, among the temperatures in ascending order, at the first place that has
/// at least 95 percent of them at or before it.
pub proof fn percentiles_stand_at_their_rank(values: Seq<i64>, ordered: Seq<i64>, rank: int)
    requires
        values.len() > 0,
        forall|i: int, j: int| 0 <= i <= j < ordered.len() ==> ordered[i] <= ordered[j],
        ordered.to_multiset() == values.to_multiset(),
        100 * rank >= 95 * values.len() > 100 * (rank - 1),
    ensures
        1 <= rank <= ordered.len(),
        percentile_95(values) == ordered[rank - 1],
{
    broadcast use vstd::seq_lib::group_to_multiset_ensures;

    let all = sorted(values);
    sorted_orders_the_same_values(values);
    let leq = |a: i64, b: i64| a <= b;
    assert(vstd::relations::sorted_by(all, leq));
    assert(vstd::relations::sorted_by(ordered, leq));
    vstd::seq_lib::lemma_sorted_unique(all, ordered, leq);
    assert((95 * values.len() + 99) / 100 == rank);
}

/// No temperature of a summarised series exceeds the summary's peak, and one of them reaches it.
pub proof fn summaries_hold_the_peaks(
    samples: Seq<TelemetrySampleEvidence>,
    slopes: FinalSlopes,
    stable: bool,
    kernel_faults: Seq<Seq<char>>,
    nvidia_faults: Seq<Seq<char>>,
    index: int,
)
    requires
        0 <= index < samples.len(),
        samples[index].cpu_millicelsius is Some,
        samples[index].gpu_millicelsius is Some,
    ensures
        ({
            let summary = thermal_summary(samples, slopes, stable, kernel_faults, nvidia_faults);
            &&& samples[index].cpu_millicelsius->0 <= summary.cpu_peak_millicelsius
            &&& samples[index].gpu_millicelsius->0 <= summary.gpu_peak_millicelsius
            &&& exists|i: int|
                0 <= i < samples.len() && (#[trigger] samples[i]).cpu_millicelsius == Some(
                    summary.cpu_peak_millicelsius,
                )
            &&& exists|i: int|
                0 <= i < samples.len() && (#[trigger] samples[i]).gpu_millicelsius == Some(
                    summary.gpu_peak_millicelsius,
                )
            &&& summary.system_stable == Some(stable)
            &&& summary.kernel_faults == kernel_faults
            &&& summary.nvidia_faults == nvidia_faults
            &&& summary.cpu_final_slope_millicelsius_per_minute
                == slopes.cpu_millicelsius_per_minute
            &&& summary.gpu_final_slope_millicelsius_per_minute
                == slopes.gpu_millicelsius_per_minute
        }),
{
    let cpu = cpu_temperatures(samples);
    let gpu = gpu_temperatures(samples);
    let c = lemma_cpu_place(samples, index);
    let g = lemma_gpu_place(samples, index);
    peaks_are_reached(cpu);
    peaks_are_reached(gpu);
    let top = choose|k: int| 0 <= k < cpu.len() && cpu[k] == peak(cpu);
    let hot = choose|k: int| 0 <= k < gpu.len() && gpu[k] == peak(gpu);
    let i = lemma_cpu_source(samples, top);
    let j = lemma_gpu_source(samples, hot);
    assert(cpu[c] <= peak(cpu));
    assert(gpu[g] <= peak(gpu));
    assert(samples[i].cpu_millicelsius is Some && samples[j].gpu_millicelsius is Some);
}

proof fn lemma_cpu_place(samples: Seq<TelemetrySampleEvidence>, index: int) -> (place: int)
    requires
        0 <= index < samples.len(),
        samples[index].cpu_millicelsius is Some,
    ensures
        0 <= place < cpu_temperatures(samples).len(),
        cpu_temperatures(samples)[place] == samples[index].cpu_millicelsius->0,
    decreases samples.len(),
{
    if index == samples.len() - 1 {
        cpu_temperatures(samples).len() - 1
    } else {
        assert(samples.drop_last()[index] == samples[index]);
        lemma_cpu_place(samples.drop_last(), index)
    }
}

proof fn lemma_gpu_place(samples: Seq<TelemetrySampleEvidence>, index: int) -> (place: int)
    requires
        0 <= index < samples.len(),
        samples[index].gpu_millicelsius is Some,
    ensures
        0 <= place < gpu_temperatures(samples).len(),
        gpu_temperatures(samples)[place] == samples[index].gpu_millicelsius->0,
    decreases samples.len(),
{
    if index == samples.len() - 1 {
        gpu_temperatures(samples).len() - 1
    } else {
        assert(samples.drop_last()[index] == samples[index]);
        lemma_gpu_place(samples.drop_last(), index)
    }
}

proof fn lemma_cpu_source(samples: Seq<TelemetrySampleEvidence>, place: int) -> (index: int)
    requires
        0 <= place < cpu_temperatures(samples).len(),
    ensures
        0 <= index < samples.len(),
        samples[index].cpu_millicelsius matches Some(value) && value == cpu_temperatures(
            samples,
        )[place],
    decreases samples.len(),
{
    let before = cpu_temperatures(samples.drop_last());
    if place < before.len() {
        lemma_cpu_source(samples.drop_last(), place)
    } else {
        samples.len() - 1
    }
}

proof fn lemma_gpu_source(samples: Seq<TelemetrySampleEvidence>, place: int) -> (index: int)
    requires
        0 <= place < gpu_temperatures(samples).len(),
    ensures
        0 <= index < samples.len(),
        samples[index].gpu_millicelsius matches Some(value) && value == gpu_temperatures(
            samples,
        )[place],
    decreases samples.len(),
{
    let before = gpu_temperatures(samples.drop_last());
    if place < before.len() {
        lemma_gpu_source(samples.drop_last(), place)
    } else {
        samples.len() - 1
    }
}

/// A run under Custom control compares well exactly where no peak and no 95th percentile exceeds the
/// baseline's by more than two degrees and no final slope exceeds its limit.
pub proof fn comparisons_allow_two_degrees(
    baseline: ThermalSummaryModel,
    custom: ThermalSummaryModel,
    slopes: FinalSlopes,
)
    ensures
        ({
            let comparison = comparison_of(baseline, custom, slopes);
            &&& comparison.peaks_acceptable <==> {
                &&& custom.cpu_peak_millicelsius - baseline.cpu_peak_millicelsius <= 2_000
                &&& custom.gpu_peak_millicelsius - baseline.gpu_peak_millicelsius <= 2_000
            }
            &&& comparison.percentiles_acceptable <==> {
                &&& custom.cpu_p95_millicelsius - baseline.cpu_p95_millicelsius <= 2_000
                &&& custom.gpu_p95_millicelsius - baseline.gpu_p95_millicelsius <= 2_000
            }
            &&& comparison.slopes_acceptable <==> !(slopes.cpu_exceeds_limit
                || slopes.gpu_exceeds_limit)
        }),
{
}

/// Starting conditions are comparable exactly where the ambient temperatures differ by at most two
/// degrees and both starting temperatures by at most three, in either direction.
pub proof fn comparable_conditions_lie_near(custom: WorkloadModel, baseline: WorkloadModel)
    ensures
        conditions_are_comparable(custom, baseline) <==> {
            &&& custom.ambient_millicelsius - baseline.ambient_millicelsius <= 2_000
            &&& baseline.ambient_millicelsius - custom.ambient_millicelsius <= 2_000
            &&& custom.starting_cpu_millicelsius - baseline.starting_cpu_millicelsius <= 3_000
            &&& baseline.starting_cpu_millicelsius - custom.starting_cpu_millicelsius <= 3_000
            &&& custom.starting_gpu_millicelsius - baseline.starting_gpu_millicelsius <= 3_000
            &&& baseline.starting_gpu_millicelsius - custom.starting_gpu_millicelsius <= 3_000
        },
        conditions_are_comparable(custom, baseline) == conditions_are_comparable(baseline, custom),
{
}

/// A series spans five minutes exactly where its last sample came at least 300 seconds after its
/// first.
pub proof fn five_minutes_are_three_hundred_seconds(samples: Seq<TelemetrySampleEvidence>)
    ensures
        spans_five_minutes(samples) <==> samples.len() > 0
            && samples[0].timestamp.monotonic_millis + 300_000 <= samples[samples.len()
            - 1].timestamp.monotonic_millis,
{
}

} // verus!
