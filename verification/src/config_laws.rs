//! What a valid configuration is, and which demand its curves ask for, told by numbers.

use vstd::prelude::*;
use crate::config::{
    config_error, curve_error, is_curve, strictly_increases, Component, ConfigModel,
    ConfigValidationError, CurvePointConfig, Profile,
};
use crate::envelope::{demand_at, demand_from, is_covered};
use crate::tachometer::Fan;

verus! {

/// A curve is valid exactly where it has a point, every demand lies within 0 to 100 percent, every
/// temperature within two million degrees, and each temperature lies above all before it.
pub proof fn valid_curves_rise(points: Seq<CurvePointConfig>)
    ensures
        is_curve(points) <==> {
            &&& points.len() >= 1
            &&& forall|i: int|
                0 <= i < points.len() ==> 0 <= (#[trigger] points[i]).demand_percent <= 100
            &&& forall|i: int|
                0 <= i < points.len() ==> -2_147_483 <= (#[trigger] points[i]).temperature_c
                    <= 2_147_483
            &&& forall|i: int, j: int|
                0 <= i < j < points.len() ==> (#[trigger] points[i]).temperature_c < (
                #[trigger] points[j]).temperature_c
        },
{
    if strictly_increases(points) {
        assert forall|i: int, j: int| 0 <= i < j < points.len() implies (
        #[trigger] points[i]).temperature_c < (#[trigger] points[j]).temperature_c by {
            lemma_rises(points, i, j);
        }
    }
}

proof fn lemma_rises(points: Seq<CurvePointConfig>, i: int, j: int)
    requires
        strictly_increases(points),
        0 <= i < j < points.len(),
    ensures
        points[i].temperature_c < points[j].temperature_c,
    decreases j - i,
{
    assert(points[j - 1].temperature_c < points[j].temperature_c);
    if i < j - 1 {
        lemma_rises(points, i, j - 1);
    }
}

/// A configuration is accepted exactly where both floors lie within 0 to 100 percent and all four curves
/// are valid.
pub proof fn accepted_configs_are_valid(m: ConfigModel)
    ensures
        config_error(m) is None <==> {
            &&& 0 <= m.cpu_floor <= 100
            &&& 0 <= m.gpu_floor <= 100
            &&& is_curve(m.ac_cpu)
            &&& is_curve(m.ac_gpu)
            &&& is_curve(m.battery_cpu)
            &&& is_curve(m.battery_gpu)
        },
        m.is_valid() <==> config_error(m) is None,
{
}

/// A refused curve is refused for what is wrong with it: a demand outside 0 to 100 percent, else a
/// temperature beyond two million degrees, else no point, else a temperature that does not rise.
pub proof fn refused_curves_break_the_named_rule(
    points: Seq<CurvePointConfig>,
    profile: Profile,
    component: Component,
)
    ensures
        match curve_error(points, profile, component) {
            None => is_curve(points),
            Some(ConfigValidationError::FloorOutOfRange { .. }) => false,
            Some(ConfigValidationError::DemandOutOfRange { profile: p, component: c }) => {
                &&& p == profile && c == component
                &&& exists|i: int|
                    0 <= i < points.len() && !(0 <= (#[trigger] points[i]).demand_percent <= 100)
            },
            Some(ConfigValidationError::TemperatureOutOfRange { profile: p, component: c }) => {
                &&& p == profile && c == component
                &&& exists|i: int|
                    0 <= i < points.len() && !(-2_147_483 <= (#[trigger] points[i]).temperature_c
                        <= 2_147_483)
            },
            Some(ConfigValidationError::Curve { profile: p, component: c, error }) => {
                &&& p == profile && c == component
                &&& error is Empty <==> points.len() == 0
                &&& error is NotStrictlyIncreasing ==> exists|i: int|
                    0 < i < points.len() && points[i - 1].temperature_c >= (
                    #[trigger] points[i]).temperature_c
            },
        },
{
}

/// A floor outside 0 to 100 percent is told before any curve, the CPU fan's first; the curves are told in
/// the order CPU and GPU on external power, CPU and GPU on battery.
pub proof fn refused_configs_name_the_first_fault(m: ConfigModel)
    ensures
        config_error(m) == Some(ConfigValidationError::FloorOutOfRange { fan: Fan::Cpu }) <==> !(0
            <= m.cpu_floor <= 100),
        config_error(m) == Some(ConfigValidationError::FloorOutOfRange { fan: Fan::Gpu }) <==> 0
            <= m.cpu_floor <= 100 && !(0 <= m.gpu_floor <= 100),
        0 <= m.cpu_floor <= 100 && 0 <= m.gpu_floor <= 100 && !is_curve(m.ac_cpu) ==> config_error(
            m,
        ) == curve_error(m.ac_cpu, Profile::Ac, Component::Cpu),
        0 <= m.cpu_floor <= 100 && 0 <= m.gpu_floor <= 100 && is_curve(m.ac_cpu) && !is_curve(
            m.ac_gpu,
        ) ==> config_error(m) == curve_error(m.ac_gpu, Profile::Ac, Component::Gpu),
        0 <= m.cpu_floor <= 100 && 0 <= m.gpu_floor <= 100 && is_curve(m.ac_cpu) && is_curve(
            m.ac_gpu,
        ) && !is_curve(m.battery_cpu) ==> config_error(m) == curve_error(
            m.battery_cpu,
            Profile::Battery,
            Component::Cpu,
        ),
        0 <= m.cpu_floor <= 100 && 0 <= m.gpu_floor <= 100 && is_curve(m.ac_cpu) && is_curve(
            m.ac_gpu,
        ) && is_curve(m.battery_cpu) && !is_curve(m.battery_gpu) ==> config_error(m)
            == curve_error(m.battery_gpu, Profile::Battery, Component::Gpu),
{
}

/// Each fan and each curve of a configuration is found under its own name.
pub proof fn configs_tell_fans_and_curves_apart(m: ConfigModel)
    ensures
        m.floor(Fan::Cpu) == m.cpu_floor,
        m.floor(Fan::Gpu) == m.gpu_floor,
        m.curve(Profile::Ac, Component::Cpu) == m.ac_cpu,
        m.curve(Profile::Ac, Component::Gpu) == m.ac_gpu,
        m.curve(Profile::Battery, Component::Cpu) == m.battery_cpu,
        m.curve(Profile::Battery, Component::Gpu) == m.battery_gpu,
{
}

proof fn lemma_from(points: Seq<CurvePointConfig>, t: int, k: int, from: int, i: int)
    requires
        strictly_increases(points),
        k > 0,
        0 <= from <= i < points.len(),
        t > points[i].temperature_c * k,
    ensures
        demand_from(points, t, k, from) == demand_from(points, t, k, i),
    decreases i - from,
{
    if from < i {
        if from + 1 < i {
            lemma_rises(points, from + 1, i);
        }
        let low = points[from + 1].temperature_c as int;
        let high = points[i].temperature_c as int;
        assert(low * k <= high * k) by (nonlinear_arith)
            requires
                low <= high,
                k > 0,
        ;
        lemma_from(points, t, k, from + 1, i);
    }
}

/// Between two neighbouring points a curve runs straight: at the temperature `t / k`, above that of the
/// point `i` and at most that of the next, each of the two demands counts by the distance to the other
/// point.
pub proof fn curves_run_straight_between_points(
    points: Seq<CurvePointConfig>,
    t: int,
    k: int,
    i: int,
)
    requires
        is_curve(points),
        k > 0,
        0 <= i < points.len() - 1,
        points[i].temperature_c * k < t <= points[i + 1].temperature_c * k,
    ensures
        demand_at(points, t, k).0 == points[i].demand_percent * (points[i + 1].temperature_c * k - t)
            + points[i + 1].demand_percent * (t - points[i].temperature_c * k),
        demand_at(points, t, k).1 == (points[i + 1].temperature_c - points[i].temperature_c) * k,
        demand_at(points, t, k).1 > 0,
{
    let t0 = points[i].temperature_c as int;
    let t1 = points[i + 1].temperature_c as int;
    let d0 = points[i].demand_percent as int;
    let d1 = points[i + 1].demand_percent as int;
    if i > 0 {
        lemma_rises(points, 0, i);
    }
    let first = points[0].temperature_c as int;
    assert(first * k <= t0 * k) by (nonlinear_arith)
        requires
            first <= t0,
            k > 0,
    ;
    lemma_from(points, t, k, 0, i);
    assert(t0 < t1);
    assert(d0 * (t1 - t0) * k + (d1 - d0) * (t - t0 * k) == d0 * (t1 * k - t) + d1 * (t - t0 * k))
        by (nonlinear_arith);
    assert((t1 - t0) * k > 0) by (nonlinear_arith)
        requires
            t0 < t1,
            k > 0,
    ;
}

/// At and below its first point a curve asks for the first demand, and above its last point for the last.
pub proof fn curves_are_flat_outside_their_points(points: Seq<CurvePointConfig>, t: int, k: int)
    requires
        is_curve(points),
        k > 0,
    ensures
        t <= points[0].temperature_c * k ==> demand_at(points, t, k) == (
            points[0].demand_percent * k,
            k,
        ),
        t > points.last().temperature_c * k ==> demand_at(points, t, k) == (
            points.last().demand_percent * k,
            k,
        ),
{
    let last = points.len() - 1;
    if t > points.last().temperature_c * k {
        if last > 0 {
            lemma_rises(points, 0, last);
        }
        let low = points[0].temperature_c as int;
        let high = points[last].temperature_c as int;
        assert(low * k <= high * k) by (nonlinear_arith)
            requires
                low <= high,
                k > 0,
        ;
        lemma_from(points, t, k, 0, last);
    }
}

/// A curve passes through each of its points.
pub proof fn curves_pass_through_their_points(points: Seq<CurvePointConfig>, k: int, i: int)
    requires
        is_curve(points),
        k > 0,
        0 <= i < points.len(),
    ensures
        demand_at(points, points[i].temperature_c * k, k).0 == points[i].demand_percent * demand_at(
            points,
            points[i].temperature_c * k,
            k,
        ).1,
        demand_at(points, points[i].temperature_c * k, k).1 > 0,
{
    let t = points[i].temperature_c * k;
    if i == 0 {
        curves_are_flat_outside_their_points(points, t, k);
    } else {
        lemma_rises(points, i - 1, i);
        let t0 = points[i - 1].temperature_c as int;
        let t1 = points[i].temperature_c as int;
        let d0 = points[i - 1].demand_percent as int;
        let d1 = points[i].demand_percent as int;
        assert(t0 * k < t1 * k) by (nonlinear_arith)
            requires
                t0 < t1,
                k > 0,
        ;
        curves_run_straight_between_points(points, t, k, i - 1);
        assert(d0 * (t1 * k - t1 * k) + d1 * (t1 * k - t0 * k) == d1 * ((t1 - t0) * k))
            by (nonlinear_arith);
    }
}

/// A demand always lies within 0 to 100 percent.
pub proof fn demands_are_percentages(points: Seq<CurvePointConfig>, t: int, k: int)
    requires
        is_curve(points),
        k > 0,
    ensures
        demand_at(points, t, k).1 > 0,
        0 <= demand_at(points, t, k).0 <= 100 * demand_at(points, t, k).1,
{
    lemma_percentages(points, t, k, points.len() - 1);
}

proof fn lemma_percentages(points: Seq<CurvePointConfig>, t: int, k: int, i: int)
    requires
        is_curve(points),
        k > 0,
        0 <= i < points.len(),
        i < points.len() - 1 ==> t <= points[i + 1].temperature_c * k,
    ensures
        demand_at(points, t, k).1 > 0,
        0 <= demand_at(points, t, k).0 <= 100 * demand_at(points, t, k).1,
    decreases i,
{
    let d0 = points[i].demand_percent as int;
    let a = t - points[i].temperature_c * k;
    if a > 0 {
        if i == points.len() - 1 {
            curves_are_flat_outside_their_points(points, t, k);
            assert(0 <= d0 * k <= 100 * k) by (nonlinear_arith)
                requires
                    0 <= d0 <= 100,
                    k > 0,
            ;
        } else {
            curves_run_straight_between_points(points, t, k, i);
            let d1 = points[i + 1].demand_percent as int;
            let b = points[i + 1].temperature_c * k - t;
            let t0 = points[i].temperature_c as int;
            let t1 = points[i + 1].temperature_c as int;
            assert((t1 - t0) * k == a + b) by (nonlinear_arith)
                requires
                    a == t - t0 * k,
                    b == t1 * k - t,
            ;
            assert(0 <= d0 * b + d1 * a <= 100 * (a + b)) by (nonlinear_arith)
                requires
                    0 <= d0 <= 100,
                    0 <= d1 <= 100,
                    a >= 0,
                    b >= 0,
            ;
        }
    } else if i == 0 {
        curves_are_flat_outside_their_points(points, t, k);
        assert(0 <= d0 * k <= 100 * k) by (nonlinear_arith)
            requires
                0 <= d0 <= 100,
                k > 0,
        ;
    } else {
        lemma_percentages(points, t, k, i - 1);
    }
}

/// A configuration stays within itself, and within itself with higher floors: raising floors is always
/// admitted, lowering one never.
pub proof fn raised_floors_are_admitted(m: ConfigModel, cpu_floor: i64, gpu_floor: i64)
    ensures
        is_covered(
            ConfigModel {
                cpu_floor,
                gpu_floor,
                ac_cpu: m.ac_cpu,
                ac_gpu: m.ac_gpu,
                battery_cpu: m.battery_cpu,
                battery_gpu: m.battery_gpu,
            },
            m,
        ) <==> cpu_floor >= m.cpu_floor && gpu_floor >= m.gpu_floor,
{
}

} // verus!
