//! Thermal summaries of sample series.

use vstd::prelude::*;
use crate::evidence::{TelemetrySampleEvidence, ThermalSummaryEvidence, ThermalSummaryModel};
use crate::order::{sort_values, sorted, sorted_orders_the_same_values};
use crate::text::texts;

verus! {

/// How fast the temperatures still rose over the last five minutes of a sample series.
///
/// The caller fits the slopes in floating point: rounded to a whole number of millidegrees per
/// minute, and compared unrounded with the limit of one degree per minute.
#[derive(Debug, Clone, Copy, PartialEq, Eq, Structural)]
pub struct FinalSlopes {
    pub cpu_millicelsius_per_minute: i32,
    pub gpu_millicelsius_per_minute: i32,
    pub cpu_exceeds_limit: bool,
    pub gpu_exceeds_limit: bool,
}

/// The CPU temperatures of the samples that carry one.
pub open spec fn cpu_temperatures(samples: Seq<TelemetrySampleEvidence>) -> Seq<i64>
    decreases samples.len(),
{
    if samples.len() == 0 {
        Seq::empty()
    } else {
        let before = cpu_temperatures(samples.drop_last());
        match samples.last().cpu_millicelsius {
            Some(value) => before.push(value as i64),
            None => before,
        }
    }
}

/// The GPU temperatures of the samples that carry one.
pub open spec fn gpu_temperatures(samples: Seq<TelemetrySampleEvidence>) -> Seq<i64>
    decreases samples.len(),
{
    if samples.len() == 0 {
        Seq::empty()
    } else {
        let before = gpu_temperatures(samples.drop_last());
        match samples.last().gpu_millicelsius {
            Some(value) => before.push(value as i64),
            None => before,
        }
    }
}

/// The largest value, or 0 of none.
pub open spec fn peak(values: Seq<i64>) -> i64 {
    if values.len() == 0 {
        0
    } else {
        sorted(values).last()
    }
}

/// The smallest value that at least 95 percent of the values do not exceed, or 0 of none.
pub open spec fn percentile_95(values: Seq<i64>) -> i64 {
    if values.len() == 0 {
        0
    } else {
        sorted(values)[(95 * values.len() + 99) / 100 - 1]
    }
}

/// The slopes of a record that has no samples.
pub open spec fn flat() -> FinalSlopes {
    FinalSlopes {
        cpu_millicelsius_per_minute: 0,
        gpu_millicelsius_per_minute: 0,
        cpu_exceeds_limit: false,
        gpu_exceeds_limit: false,
    }
}

/// Gives [`flat`].
pub fn flat_slopes() -> (slopes: FinalSlopes)
    ensures
        slopes == flat(),
{
    FinalSlopes {
        cpu_millicelsius_per_minute: 0,
        gpu_millicelsius_per_minute: 0,
        cpu_exceeds_limit: false,
        gpu_exceeds_limit: false,
    }
}

/// The summary of a sample series.
pub open spec fn thermal_summary(
    samples: Seq<TelemetrySampleEvidence>,
    slopes: FinalSlopes,
    system_stable: bool,
    kernel_faults: Seq<Seq<char>>,
    nvidia_faults: Seq<Seq<char>>,
) -> ThermalSummaryModel {
    ThermalSummaryModel {
        cpu_peak_millicelsius: peak(cpu_temperatures(samples)) as i32,
        gpu_peak_millicelsius: peak(gpu_temperatures(samples)) as i32,
        cpu_p95_millicelsius: percentile_95(cpu_temperatures(samples)) as i32,
        gpu_p95_millicelsius: percentile_95(gpu_temperatures(samples)) as i32,
        cpu_final_slope_millicelsius_per_minute: slopes.cpu_millicelsius_per_minute,
        gpu_final_slope_millicelsius_per_minute: slopes.gpu_millicelsius_per_minute,
        system_stable: Some(system_stable),
        kernel_faults,
        nvidia_faults,
    }
}

/// The summary that an undisturbed run must carry.
pub open spec fn stable_summary(
    samples: Seq<TelemetrySampleEvidence>,
    slopes: FinalSlopes,
) -> ThermalSummaryModel {
    thermal_summary(samples, slopes, true, Seq::empty(), Seq::empty())
}

spec fn fits_i32(values: Seq<i64>) -> bool {
    forall|i: int| 0 <= i < values.len() ==> i32::MIN <= #[trigger] values[i] <= i32::MAX
}

fn collect_cpu(samples: &Vec<TelemetrySampleEvidence>) -> (values: Vec<i64>)
    ensures
        values@ == cpu_temperatures(samples@),
        fits_i32(values@),
        values@.len() <= samples@.len(),
{
    let mut values: Vec<i64> = Vec::new();
    let mut i: usize = 0;
    assert(samples@.take(0) =~= Seq::<TelemetrySampleEvidence>::empty());
    while i < samples.len()
        invariant
            i <= samples.len(),
            values@ == cpu_temperatures(samples@.take(i as int)),
            fits_i32(values@),
            values@.len() <= i,
        decreases samples.len() - i,
    {
        proof {
            let longer = samples@.take(i + 1);
            assert(longer.drop_last() =~= samples@.take(i as int));
            assert(longer.last() == samples@[i as int]);
        }
        match samples[i].cpu_millicelsius {
            Some(value) => {
                values.push(value as i64);
            },
            None => {},
        }
        i = i + 1;
    }
    assert(samples@.take(samples.len() as int) =~= samples@);
    values
}

fn collect_gpu(samples: &Vec<TelemetrySampleEvidence>) -> (values: Vec<i64>)
    ensures
        values@ == gpu_temperatures(samples@),
        fits_i32(values@),
        values@.len() <= samples@.len(),
{
    let mut values: Vec<i64> = Vec::new();
    let mut i: usize = 0;
    assert(samples@.take(0) =~= Seq::<TelemetrySampleEvidence>::empty());
    while i < samples.len()
        invariant
            i <= samples.len(),
            values@ == gpu_temperatures(samples@.take(i as int)),
            fits_i32(values@),
            values@.len() <= i,
        decreases samples.len() - i,
    {
        proof {
            let longer = samples@.take(i + 1);
            assert(longer.drop_last() =~= samples@.take(i as int));
            assert(longer.last() == samples@[i as int]);
        }
        match samples[i].gpu_millicelsius {
            Some(value) => {
                values.push(value as i64);
            },
            None => {},
        }
        i = i + 1;
    }
    assert(samples@.take(samples.len() as int) =~= samples@);
    values
}

/// The peak and the 95th percentile of a series.
fn peak_and_p95(values: &Vec<i64>) -> (result: (i32, i32))
    requires
        fits_i32(values@),
    ensures
        result.0 == peak(values@) as i32,
        result.1 == percentile_95(values@) as i32,
        result.0 == peak(values@),
        result.1 == percentile_95(values@),
{
    broadcast use vstd::seq_lib::group_to_multiset_ensures;

    if values.len() == 0 {
        return (0, 0);
    }
    let ordered = sort_values(values);
    proof {
        sorted_orders_the_same_values(values@);
        assert forall|k: int| 0 <= k < ordered@.len() implies i32::MIN <= #[trigger] ordered@[k]
            <= i32::MAX by {
            assert(ordered@.contains(ordered@[k]));
            assert(ordered@.to_multiset().count(ordered@[k]) > 0);
            assert(values@.contains(ordered@[k]));
            let j = choose|j: int| 0 <= j < values@.len() && values@[j] == ordered@[k];
            assert(i32::MIN <= values@[j] <= i32::MAX);
        }
    }
    let rank: u128 = (95 * ordered.len() as u128 + 99) / 100;
    assert(1 <= rank <= ordered.len());
    let index: usize = rank as usize - 1;
    (ordered[ordered.len() - 1] as i32, ordered[index] as i32)
}

/// Summarises a sample series.
pub fn summarize_thermal_evidence(
    samples: &Vec<TelemetrySampleEvidence>,
    slopes: FinalSlopes,
    system_stable: bool,
    kernel_faults: Vec<String>,
    nvidia_faults: Vec<String>,
) -> (summary: ThermalSummaryEvidence)
    ensures
        summary@ == thermal_summary(
            samples@,
            slopes,
            system_stable,
            texts(kernel_faults@),
            texts(nvidia_faults@),
        ),
{
    let cpu = peak_and_p95(&collect_cpu(samples));
    let gpu = peak_and_p95(&collect_gpu(samples));
    ThermalSummaryEvidence {
        cpu_peak_millicelsius: cpu.0,
        gpu_peak_millicelsius: gpu.0,
        cpu_p95_millicelsius: cpu.1,
        gpu_p95_millicelsius: gpu.1,
        cpu_final_slope_millicelsius_per_minute: slopes.cpu_millicelsius_per_minute,
        gpu_final_slope_millicelsius_per_minute: slopes.gpu_millicelsius_per_minute,
        system_stable: Some(system_stable),
        kernel_faults,
        nvidia_faults,
    }
}

/// Whether a summary is the one that an undisturbed run over these samples must carry.
pub fn summary_matches(
    summary: &ThermalSummaryEvidence,
    samples: &Vec<TelemetrySampleEvidence>,
    slopes: FinalSlopes,
) -> (yes: bool)
    ensures
        yes == (summary@ == stable_summary(samples@, slopes)),
{
    let cpu = peak_and_p95(&collect_cpu(samples));
    let gpu = peak_and_p95(&collect_gpu(samples));
    let stable = match summary.system_stable {
        Some(stable) => stable,
        None => false,
    };
    let yes = summary.cpu_peak_millicelsius == cpu.0 && summary.gpu_peak_millicelsius == gpu.0
        && summary.cpu_p95_millicelsius == cpu.1 && summary.gpu_p95_millicelsius == gpu.1
        && summary.cpu_final_slope_millicelsius_per_minute == slopes.cpu_millicelsius_per_minute
        && summary.gpu_final_slope_millicelsius_per_minute == slopes.gpu_millicelsius_per_minute
        && stable && summary.kernel_faults.len() == 0 && summary.nvidia_faults.len() == 0;
    proof {
        if summary.kernel_faults@.len() == 0 {
            assert(texts(summary.kernel_faults@) =~= Seq::<Seq<char>>::empty());
        }
        if summary.nvidia_faults@.len() == 0 {
            assert(texts(summary.nvidia_faults@) =~= Seq::<Seq<char>>::empty());
        }
        assert(texts(summary.kernel_faults@).len() == summary.kernel_faults@.len());
        assert(texts(summary.nvidia_faults@).len() == summary.nvidia_faults@.len());
    }
    yes
}

/// The 95th percentile never exceeds the peak.
pub proof fn percentile_is_below_peak(values: Seq<i64>)
    ensures
        percentile_95(values) <= peak(values),
{
    if values.len() > 0 {
        sorted_orders_the_same_values(values);
        let ordered = sorted(values);
        assert(ordered[(95 * values.len() + 99) / 100 - 1] <= ordered[ordered.len() - 1]);
    }
}

} // verus!
