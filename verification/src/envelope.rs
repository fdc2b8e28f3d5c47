//! The protected envelope that a candidate configuration must not undercut.
//!
//! A curve holds its first demand below its first point and its last demand above its last point,
//! and runs straight between its points.

use vstd::prelude::*;
use vstd::string::*;
use crate::config::{
    is_curve, is_recordable, Component, ConfigModel, CurvePointConfig, Profile, ValidatedConfig,
};
use crate::tachometer::Fan;
use crate::text::{decimal, decimal_text, join3};

verus! {

broadcast use vstd::string::group_string_axioms;

/// The demand on the straight line between two points at the temperature `t / k`, as a fraction.
pub open spec fn between(
    lower: CurvePointConfig,
    upper: CurvePointConfig,
    t: int,
    k: int,
) -> (int, int) {
    let span = upper.temperature_c - lower.temperature_c;
    (
        lower.demand_percent * span * k + (upper.demand_percent - lower.demand_percent) * (t
            - lower.temperature_c * k),
        span * k,
    )
}

/// The demand of a curve at the temperature `t / k`, from a point on.
pub open spec fn demand_from(points: Seq<CurvePointConfig>, t: int, k: int, from: int) -> (int, int)
    decreases points.len() - from,
{
    if from + 1 >= points.len() {
        (points.last().demand_percent * k, k)
    } else if t <= points[from + 1].temperature_c * k {
        between(points[from], points[from + 1], t, k)
    } else {
        demand_from(points, t, k, from + 1)
    }
}

/// The demand of a curve at the temperature `t / k`, as a fraction of percent.
pub open spec fn demand_at(points: Seq<CurvePointConfig>, t: int, k: int) -> (int, int) {
    if t <= points[0].temperature_c * k {
        (points[0].demand_percent * k, k)
    } else {
        demand_from(points, t, k, 0)
    }
}

/// Whether a curve demands less than another at the temperature `t / k`.
pub open spec fn is_below(
    candidate: Seq<CurvePointConfig>,
    protected: Seq<CurvePointConfig>,
    t: int,
    k: int,
) -> bool {
    let c = demand_at(candidate, t, k);
    let p = demand_at(protected, t, k);
    c.0 * p.1 < p.0 * c.1
}

/// Whether a temperature is that of a point of a curve.
pub open spec fn has_point(points: Seq<CurvePointConfig>, t: int) -> bool {
    exists|i: int| 0 <= i < points.len() && (#[trigger] points[i]).temperature_c == t
}

/// Whether a temperature is the lowest point of either curve at which the first demands less.
pub open spec fn is_first_below(
    candidate: Seq<CurvePointConfig>,
    protected: Seq<CurvePointConfig>,
    t: int,
) -> bool {
    &&& has_point(candidate, t) || has_point(protected, t)
    &&& is_below(candidate, protected, t, 1)
    &&& forall|u: int|
        #![trigger is_below(candidate, protected, u, 1)]
        u < t && (has_point(candidate, u) || has_point(protected, u)) ==> !is_below(
            candidate,
            protected,
            u,
            1,
        )
}

/// Whether a curve demands no less than another at any point of either.
pub open spec fn stays_above(
    candidate: Seq<CurvePointConfig>,
    protected: Seq<CurvePointConfig>,
) -> bool {
    forall|u: int|
        #![trigger is_below(candidate, protected, u, 1)]
        has_point(candidate, u) || has_point(protected, u) ==> !is_below(
            candidate,
            protected,
            u,
            1,
        )
}

/// The demand at a whole temperature.
fn find_demand(points: &Vec<CurvePointConfig>, t: i64) -> (demand: (i64, i64))
    requires
        is_curve(points@),
        is_recordable(t),
    ensures
        (demand.0 as int, demand.1 as int) == demand_at(points@, t as int, 1),
        0 < demand.1 <= 4_294_966,
        -1_288_489_800 <= demand.0 <= 1_288_489_800,
{
    if t <= points[0].temperature_c {
        return (points[0].demand_percent, 1);
    }
    let mut i: usize = 0;
    while i + 1 < points.len()
        invariant
            i < points.len(),
            is_curve(points@),
            is_recordable(t),
            t > points@[i as int].temperature_c,
            demand_at(points@, t as int, 1) == demand_from(points@, t as int, 1, i as int),
        decreases points.len() - i,
    {
        let lower = points[i];
        let upper = points[i + 1];
        assert(points@[(i + 1) - 1].temperature_c < points@[i + 1].temperature_c);
        if t <= upper.temperature_c {
            let span: i64 = upper.temperature_c - lower.temperature_c;
            let offset: i64 = t - lower.temperature_c;
            let rise: i64 = upper.demand_percent - lower.demand_percent;
            proof {
                assert(0 <= lower.demand_percent * span <= 429_496_600) by (nonlinear_arith)
                    requires
                        0 <= lower.demand_percent <= 100,
                        0 < span <= 4_294_966,
                ;
                assert(-429_496_600 <= rise * offset <= 429_496_600) by (nonlinear_arith)
                    requires
                        -100 <= rise <= 100,
                        0 < offset <= 4_294_966,
                ;
            }
            return (lower.demand_percent * span + rise * offset, span);
        }
        i = i + 1;
    }
    (points[i].demand_percent, 1)
}

/// Whether a curve demands less than another at a whole temperature.
fn is_below_at(
    candidate: &Vec<CurvePointConfig>,
    protected: &Vec<CurvePointConfig>,
    t: i64,
) -> (yes:
    bool)
    requires
        is_curve(candidate@),
        is_curve(protected@),
        is_recordable(t),
    ensures
        yes == is_below(candidate@, protected@, t as int, 1),
{
    let (cn, cd) = find_demand(candidate, t);
    let (pn, pd) = find_demand(protected, t);
    proof {
        assert(-5_600_000_000_000_000 <= cn * pd <= 5_600_000_000_000_000) by (nonlinear_arith)
            requires
                -1_288_489_800 <= cn <= 1_288_489_800,
                0 < pd <= 4_294_966,
        ;
        assert(-5_600_000_000_000_000 <= pn * cd <= 5_600_000_000_000_000) by (nonlinear_arith)
            requires
                -1_288_489_800 <= pn <= 1_288_489_800,
                0 < cd <= 4_294_966,
        ;
    }
    cn * pd < pn * cd
}

/// The lowest point of a list at which a candidate demands less.
fn lowest_below(
    points: &Vec<CurvePointConfig>,
    candidate: &Vec<CurvePointConfig>,
    protected: &Vec<CurvePointConfig>,
) -> (found: Option<i64>)
    requires
        is_curve(points@),
        is_curve(candidate@),
        is_curve(protected@),
    ensures
        match found {
            Some(t) => has_point(points@, t as int) && is_below(candidate@, protected@, t as int, 1)
                && forall|u: int|
                #![trigger is_below(candidate@, protected@, u, 1)]
                u < t && has_point(points@, u) ==> !is_below(candidate@, protected@, u, 1),
            None => forall|u: int|
                #![trigger is_below(candidate@, protected@, u, 1)]
                has_point(points@, u) ==> !is_below(candidate@, protected@, u, 1),
        },
{
    let mut i: usize = 0;
    while i < points.len()
        invariant
            i <= points.len(),
            is_curve(points@),
            is_curve(candidate@),
            is_curve(protected@),
            forall|k: int|
                0 <= k < i ==> !is_below(
                    candidate@,
                    protected@,
                    (#[trigger] points@[k]).temperature_c as int,
                    1,
                ),
        decreases points.len() - i,
    {
        let t: i64 = points[i].temperature_c;
        if is_below_at(candidate, protected, t) {
            proof {
                assert(has_point(points@, t as int));
                assert forall|u: int|
                    #![trigger is_below(candidate@, protected@, u, 1)]
                    u < t && has_point(points@, u) implies !is_below(
                    candidate@,
                    protected@,
                    u,
                    1,
                ) by {
                    let k = choose|k: int|
                        0 <= k < points@.len() && (#[trigger] points@[k]).temperature_c == u;
                    if k >= i {
                        lemma_temperatures_increase(points@, i as int, k);
                    }
                }
            }
            return Some(t);
        }
        i = i + 1;
    }
    proof {
        assert forall|u: int|
            #![trigger is_below(candidate@, protected@, u, 1)]
            has_point(points@, u) implies !is_below(candidate@, protected@, u, 1) by {
            let k = choose|k: int|
                0 <= k < points@.len() && (#[trigger] points@[k]).temperature_c == u;
        }
    }
    None
}

proof fn lemma_temperatures_increase(points: Seq<CurvePointConfig>, i: int, j: int)
    requires
        is_curve(points),
        0 <= i <= j < points.len(),
    ensures
        points[i].temperature_c <= points[j].temperature_c,
        i < j ==> points[i].temperature_c < points[j].temperature_c,
    decreases j - i,
{
    if i < j {
        lemma_temperatures_increase(points, i, j - 1);
        assert(points[j - 1].temperature_c < points[j].temperature_c);
    }
}

/// Finds the lowest point of either curve at which the candidate demands less.
pub fn first_below(candidate: &Vec<CurvePointConfig>, protected: &Vec<CurvePointConfig>) -> (found:
    Option<i64>)
    requires
        is_curve(candidate@),
        is_curve(protected@),
    ensures
        match found {
            Some(t) => is_first_below(candidate@, protected@, t as int),
            None => stays_above(candidate@, protected@),
        },
{
    let own = lowest_below(candidate, candidate, protected);
    let other = lowest_below(protected, candidate, protected);
    match (own, other) {
        (Some(a), Some(b)) => if a <= b {
            Some(a)
        } else {
            Some(b)
        },
        (Some(a), None) => Some(a),
        (None, Some(b)) => Some(b),
        (None, None) => None,
    }
}

/// Why a candidate undercuts the protected configuration.
#[derive(Debug, Clone, Copy, PartialEq, Eq, Structural)]
pub enum EnvelopeValidationError {
    FanFloorBelowProtected { fan: Fan, candidate_percent: i64, protected_percent: i64 },
    CurveBelowProtected { profile: Profile, component: Component, temperature_celsius: i64 },
}

/// The decimal text of a whole number.
pub open spec fn signed_text(number: int) -> Seq<char> {
    if number < 0 {
        "-"@ + decimal_text((-number) as nat)
    } else {
        decimal_text(number as nat)
    }
}

fn signed(number: i64) -> (text: String)
    ensures
        text@ == signed_text(number as int),
{
    if number < 0 {
        let magnitude: u64 = (-(number as i128)) as u64;
        crate::text::join("-", decimal(magnitude).as_str())
    } else {
        decimal(number as u64)
    }
}

impl EnvelopeValidationError {
    /// The text of the message.
    pub open spec fn text(self) -> Seq<char> {
        match self {
            EnvelopeValidationError::FanFloorBelowProtected {
                fan,
                candidate_percent,
                protected_percent,
            } => fan.label() + " fan floor "@ + signed_text(candidate_percent as int)
                + "% is below protected floor "@ + signed_text(protected_percent as int) + "%"@,
            EnvelopeValidationError::CurveBelowProtected {
                profile,
                component,
                temperature_celsius,
            } => profile.label() + "."@ + component.label()
                + " curve is below its protected envelope at "@ + signed_text(
                temperature_celsius as int,
            ) + " \u{b0}C"@,
        }
    }

    /// The message shown to an operator.
    pub fn message(&self) -> (text: String)
        ensures
            text@ == self.text(),
    {
        match self {
            EnvelopeValidationError::FanFloorBelowProtected {
                fan,
                candidate_percent,
                protected_percent,
            } => {
                let mut text = join3(
                    fan.name(),
                    " fan floor ",
                    signed(*candidate_percent).as_str(),
                );
                text.append("% is below protected floor ");
                text.append(signed(*protected_percent).as_str());
                text.append("%");
                text
            },
            EnvelopeValidationError::CurveBelowProtected {
                profile,
                component,
                temperature_celsius,
            } => {
                let mut text = join3(profile.name(), ".", component.name());
                text.append(" curve is below its protected envelope at ");
                text.append(signed(*temperature_celsius).as_str());
                text.append(" \u{b0}C");
                text
            },
        }
    }
}

/// What makes a candidate's floor undercut the protected one.
pub open spec fn floor_error(candidate: ConfigModel, protected: ConfigModel, fan: Fan) -> Option<
    EnvelopeValidationError,
> {
    if candidate.floor(fan) < protected.floor(fan) {
        Some(
            EnvelopeValidationError::FanFloorBelowProtected {
                fan,
                candidate_percent: candidate.floor(fan),
                protected_percent: protected.floor(fan),
            },
        )
    } else {
        None
    }
}

/// Whether an error tells the lowest point at which a curve undercuts the protected one.
pub open spec fn is_curve_error(
    error: Option<EnvelopeValidationError>,
    candidate: ConfigModel,
    protected: ConfigModel,
    profile: Profile,
    component: Component,
) -> bool {
    let c = candidate.curve(profile, component);
    let p = protected.curve(profile, component);
    match error {
        None => stays_above(c, p),
        Some(EnvelopeValidationError::CurveBelowProtected {
            profile: told_profile,
            component: told_component,
            temperature_celsius,
        }) => told_profile == profile && told_component == component && is_first_below(
            c,
            p,
            temperature_celsius as int,
        ),
        _ => false,
    }
}

/// Whether no floor and no curve of a candidate undercuts the protected configuration.
pub open spec fn is_covered(candidate: ConfigModel, protected: ConfigModel) -> bool {
    &&& protected.cpu_floor <= candidate.cpu_floor
    &&& protected.gpu_floor <= candidate.gpu_floor
    &&& stays_above(candidate.ac_cpu, protected.ac_cpu)
    &&& stays_above(candidate.ac_gpu, protected.ac_gpu)
    &&& stays_above(candidate.battery_cpu, protected.battery_cpu)
    &&& stays_above(candidate.battery_gpu, protected.battery_gpu)
}

/// Whether an error is the first one, in order: floors, then the curves on external power, then
/// those on battery, the CPU before the GPU.
pub open spec fn is_first_envelope_error(
    error: EnvelopeValidationError,
    candidate: ConfigModel,
    protected: ConfigModel,
) -> bool {
    let e = Some(error);
    if floor_error(candidate, protected, Fan::Cpu) is Some {
        e == floor_error(candidate, protected, Fan::Cpu)
    } else if floor_error(candidate, protected, Fan::Gpu) is Some {
        e == floor_error(candidate, protected, Fan::Gpu)
    } else if !stays_above(candidate.ac_cpu, protected.ac_cpu) {
        is_curve_error(e, candidate, protected, Profile::Ac, Component::Cpu)
    } else if !stays_above(candidate.ac_gpu, protected.ac_gpu) {
        is_curve_error(e, candidate, protected, Profile::Ac, Component::Gpu)
    } else if !stays_above(candidate.battery_cpu, protected.battery_cpu) {
        is_curve_error(e, candidate, protected, Profile::Battery, Component::Cpu)
    } else {
        is_curve_error(e, candidate, protected, Profile::Battery, Component::Gpu)
    }
}

fn validate_floor(
    candidate: &ValidatedConfig,
    protected: &ValidatedConfig,
    fan: Fan,
) -> (result: Result<
    (),
    EnvelopeValidationError,
>)
    ensures
        match floor_error(candidate@, protected@, fan) {
            Some(error) => result == Err::<(), EnvelopeValidationError>(error),
            None => result is Ok,
        },
{
    let candidate_percent: i64 = candidate.floor(fan);
    let protected_percent: i64 = protected.floor(fan);
    if candidate_percent < protected_percent {
        return Err(
            EnvelopeValidationError::FanFloorBelowProtected {
                fan,
                candidate_percent,
                protected_percent,
            },
        );
    }
    Ok(())
}

fn validate_curves(
    candidate: &ValidatedConfig,
    protected: &ValidatedConfig,
    profile: Profile,
    component: Component,
) -> (result: Result<(), EnvelopeValidationError>)
    ensures
        is_curve_error(
            match result {
                Ok(()) => None,
                Err(error) => Some(error),
            },
            candidate@,
            protected@,
            profile,
            component,
        ),
{
    match first_below(candidate.curve(profile, component), protected.curve(profile, component)) {
        Some(temperature_celsius) => Err(
            EnvelopeValidationError::CurveBelowProtected {
                profile,
                component,
                temperature_celsius,
            },
        ),
        None => Ok(()),
    }
}

/// Decides whether a candidate stays within the protected envelope.
pub fn check_protected_envelope(
    candidate: &ValidatedConfig,
    protected: &ValidatedConfig,
) -> (result: Result<
    (),
    EnvelopeValidationError,
>)
    ensures
        match result {
            Ok(()) => is_covered(candidate@, protected@),
            Err(error) => !is_covered(candidate@, protected@) && is_first_envelope_error(
                error,
                candidate@,
                protected@,
            ),
        },
{
    match validate_floor(candidate, protected, Fan::Cpu) {
        Ok(()) => {},
        Err(error) => {
            return Err(error);
        },
    }
    match validate_floor(candidate, protected, Fan::Gpu) {
        Ok(()) => {},
        Err(error) => {
            return Err(error);
        },
    }
    match validate_curves(candidate, protected, Profile::Ac, Component::Cpu) {
        Ok(()) => {},
        Err(error) => {
            return Err(error);
        },
    }
    match validate_curves(candidate, protected, Profile::Ac, Component::Gpu) {
        Ok(()) => {},
        Err(error) => {
            return Err(error);
        },
    }
    match validate_curves(candidate, protected, Profile::Battery, Component::Cpu) {
        Ok(()) => {},
        Err(error) => {
            return Err(error);
        },
    }
    validate_curves(candidate, protected, Profile::Battery, Component::Gpu)
}

/// A configuration that stays within a protected envelope.
#[derive(Debug, PartialEq)]
pub struct ProtectedConfig(ValidatedConfig);

impl ProtectedConfig {
    /// The contents of the configuration.
    pub closed spec fn contents(&self) -> ConfigModel {
        self.0@
    }

    pub fn config(&self) -> (config: &ValidatedConfig)
        ensures
            config@ == self.contents(),
    {
        &self.0
    }

    pub fn into_config(self) -> (config: ValidatedConfig)
        ensures
            config@ == self.contents(),
    {
        self.0
    }
}

impl Clone for ProtectedConfig {
    fn clone(&self) -> (copy: ProtectedConfig)
        ensures
            copy.contents() == self.contents(),
    {
        ProtectedConfig(self.0.clone())
    }
}

/// Admits a candidate that stays within the protected envelope.
pub fn validate_against_protected_envelope(
    candidate: ValidatedConfig,
    protected: &ValidatedConfig,
) -> (result: Result<ProtectedConfig, EnvelopeValidationError>)
    ensures
        match result {
            Ok(config) => is_covered(candidate@, protected@) && config.contents() == candidate@,
            Err(error) => !is_covered(candidate@, protected@) && is_first_envelope_error(
                error,
                candidate@,
                protected@,
            ),
        },
{
    match check_protected_envelope(&candidate, protected) {
        Ok(()) => Ok(ProtectedConfig(candidate)),
        Err(error) => Err(error),
    }
}

/// The straight line that a curve runs on between its point `i` and the next one, as
/// `(f.0 * k + f.1 * t) / (f.2 * k)` at the temperature `t / k`. Before the first point and after
/// the last one the line is flat.
spec fn line_of(points: Seq<CurvePointConfig>, i: int) -> (int, int, int) {
    if i < 0 {
        (points[0].demand_percent as int, 0, 1)
    } else if i + 1 >= points.len() {
        (points.last().demand_percent as int, 0, 1)
    } else {
        let lower = points[i];
        let upper = points[i + 1];
        let span = upper.temperature_c - lower.temperature_c;
        let rise = upper.demand_percent - lower.demand_percent;
        (lower.demand_percent * span - rise * lower.temperature_c, rise, span)
    }
}

/// Whether the temperature `t / k` lies on the piece of a curve that begins at its point `i`.
spec fn lies_on(points: Seq<CurvePointConfig>, i: int, t: int, k: int) -> bool {
    &&& -1 <= i < points.len()
    &&& i >= 0 ==> points[i].temperature_c * k <= t
    &&& i + 1 < points.len() ==> t <= points[i + 1].temperature_c * k
}

proof fn lemma_between_is_line(lower: CurvePointConfig, upper: CurvePointConfig, t: int, k: int)
    ensures
        ({
            let span = upper.temperature_c - lower.temperature_c;
            let rise = upper.demand_percent - lower.demand_percent;
            between(lower, upper, t, k).0 == (lower.demand_percent * span - rise
                * lower.temperature_c) * k + rise * t
        }),
{
    let span = upper.temperature_c - lower.temperature_c;
    let rise = upper.demand_percent - lower.demand_percent;
    let d = lower.demand_percent as int;
    let x = lower.temperature_c as int;
    assert(d * span * k + rise * (t - x * k) == (d * span - rise * x) * k + rise * t)
        by (nonlinear_arith);
}

/// At a point the straight line before it gives that point's own demand.
proof fn lemma_between_ends(lower: CurvePointConfig, upper: CurvePointConfig, k: int)
    ensures
        between(lower, upper, upper.temperature_c * k, k).0 == upper.demand_percent * between(
            lower,
            upper,
            upper.temperature_c * k,
            k,
        ).1,
        between(lower, upper, lower.temperature_c * k, k).0 == lower.demand_percent * between(
            lower,
            upper,
            lower.temperature_c * k,
            k,
        ).1,
{
    let a = lower.temperature_c as int;
    let b = upper.temperature_c as int;
    let d = lower.demand_percent as int;
    let e = upper.demand_percent as int;
    assert(d * (b - a) * k + (e - d) * (b * k - a * k) == e * ((b - a) * k)) by (nonlinear_arith);
    assert(d * (b - a) * k + (e - d) * (a * k - a * k) == d * ((b - a) * k)) by (nonlinear_arith);
}

/// What [`demand_from`] yields where the search reaches the piece that begins at the point `i`.
proof fn lemma_demand_from(points: Seq<CurvePointConfig>, t: int, k: int, from: int, i: int)
    requires
        is_curve(points),
        k > 0,
        0 <= from <= i < points.len(),
        points[i].temperature_c * k < t,
        i + 1 < points.len() ==> t <= points[i + 1].temperature_c * k,
    ensures
        demand_from(points, t, k, from) == if i + 1 < points.len() {
            between(points[i], points[i + 1], t, k)
        } else {
            (points.last().demand_percent * k, k)
        },
    decreases i - from,
{
    if from < i {
        lemma_temperatures_increase(points, from + 1, i);
        let near = points[from + 1].temperature_c as int;
        let far = points[i].temperature_c as int;
        assert(near * k <= far * k) by (nonlinear_arith)
            requires
                near <= far,
                k > 0,
        ;
        lemma_demand_from(points, t, k, from + 1, i);
    }
}

/// What [`demand_from`] yields exactly at the point `i`.
proof fn lemma_demand_from_point(points: Seq<CurvePointConfig>, k: int, from: int, i: int)
    requires
        is_curve(points),
        k > 0,
        0 <= from < i < points.len(),
    ensures
        demand_from(points, points[i].temperature_c * k, k, from) == between(
            points[i - 1],
            points[i],
            points[i].temperature_c * k,
            k,
        ),
    decreases i - from,
{
    let t = points[i].temperature_c * k;
    if from + 1 < i {
        lemma_temperatures_increase(points, from + 1, i);
        let near = points[from + 1].temperature_c as int;
        let far = points[i].temperature_c as int;
        assert(near * k < far * k) by (nonlinear_arith)
            requires
                near < far,
                k > 0,
        ;
        lemma_demand_from_point(points, k, from + 1, i);
    }
}

/// On each piece a curve's demand is that of the piece's straight line.
proof fn lemma_demand_on_piece(points: Seq<CurvePointConfig>, i: int, t: int, k: int)
    requires
        is_curve(points),
        k > 0,
        lies_on(points, i, t, k),
    ensures
        demand_at(points, t, k).1 > 0,
        line_of(points, i).2 > 0,
        demand_at(points, t, k).0 * (line_of(points, i).2 * k) == (line_of(points, i).0 * k
            + line_of(points, i).1 * t) * demand_at(points, t, k).1,
{
    let f = line_of(points, i);
    let first = points[0].temperature_c as int;
    if i >= 0 {
        lemma_temperatures_increase(points, 0, i);
    }
    if i >= 0 && i + 1 < points.len() {
        assert(points[(i + 1) - 1].temperature_c < points[i + 1].temperature_c);
    }
    if i < 0 {
        let d = points[0].demand_percent as int;
        assert((d * k) * (1 * k) == (d * k + 0 * t) * k) by (nonlinear_arith);
    } else if points[i].temperature_c * k < t {
        let at = points[i].temperature_c as int;
        assert(first * k <= at * k) by (nonlinear_arith)
            requires
                first <= at,
                k > 0,
        ;
        lemma_demand_from(points, t, k, 0, i);
        if i + 1 < points.len() {
            let lower = points[i];
            let upper = points[i + 1];
            let span = upper.temperature_c - lower.temperature_c;
            lemma_between_is_line(lower, upper, t, k);
            assert(span * k > 0) by (nonlinear_arith)
                requires
                    span > 0,
                    k > 0,
            ;
        } else {
            let d = points.last().demand_percent as int;
            assert((d * k) * (1 * k) == (d * k + 0 * t) * k) by (nonlinear_arith);
        }
    } else {
        // Exactly at the point.
        let at = points[i].temperature_c as int;
        let d = points[i].demand_percent as int;
        assert(t == at * k);
        assert(f.0 * k + f.1 * t == d * (f.2 * k)) by {
            if i + 1 < points.len() {
                lemma_between_is_line(points[i], points[i + 1], t, k);
                lemma_between_ends(points[i], points[i + 1], k);
            } else {
                assert(d * k + 0 * t == d * (1 * k)) by (nonlinear_arith);
            }
        }
        let n = demand_at(points, t, k).0;
        let m = demand_at(points, t, k).1;
        assert(n == d * m && m > 0) by {
            if i > 0 {
                lemma_temperatures_increase(points, 0, i);
                assert(first * k < at * k) by (nonlinear_arith)
                    requires
                        first < at,
                        k > 0,
                ;
                lemma_demand_from_point(points, k, 0, i);
                lemma_between_ends(points[i - 1], points[i], k);
                assert(points[i - 1].temperature_c < points[i].temperature_c);
                let span = points[i].temperature_c - points[i - 1].temperature_c;
                assert(span * k > 0) by (nonlinear_arith)
                    requires
                        span > 0,
                        k > 0,
                ;
            }
        }
        let g = f.2 * k;
        assert(n * g == (d * g) * m) by (nonlinear_arith)
            requires
                n == d * m,
        ;
    }
}

/// Every temperature lies on some piece of a curve.
proof fn lemma_some_piece(points: Seq<CurvePointConfig>, t: int, k: int, from: int) -> (i: int)
    requires
        is_curve(points),
        0 <= from < points.len(),
        points[from].temperature_c * k <= t,
    ensures
        from <= i,
        lies_on(points, i, t, k),
    decreases points.len() - from,
{
    if from + 1 >= points.len() || t <= points[from + 1].temperature_c * k {
        from
    } else {
        lemma_some_piece(points, t, k, from + 1)
    }
}

proof fn lemma_find_piece(points: Seq<CurvePointConfig>, t: int, k: int) -> (i: int)
    requires
        is_curve(points),
    ensures
        lies_on(points, i, t, k),
{
    if t <= points[0].temperature_c * k {
        -1
    } else {
        lemma_some_piece(points, t, k, 0)
    }
}

/// Two fractions compare as two others that equal them.
proof fn lemma_fractions_compare(
    a: int,
    b: int,
    c: int,
    d: int,
    a2: int,
    b2: int,
    c2: int,
    d2: int,
)
    requires
        b > 0,
        d > 0,
        b2 > 0,
        d2 > 0,
        a * b2 == a2 * b,
        c * d2 == c2 * d,
        a * d >= c * b,
    ensures
        a2 * d2 >= c2 * b2,
{
    let scale = b2 * d2;
    assert(scale > 0) by (nonlinear_arith)
        requires
            b2 > 0,
            d2 > 0,
            scale == b2 * d2,
    ;
    assert((a * d) * scale >= (c * b) * scale) by (nonlinear_arith)
        requires
            a * d >= c * b,
            scale > 0,
    ;
    assert((a * d) * (b2 * d2) == (a * b2) * (d * d2)) by (nonlinear_arith);
    assert((c * b) * (b2 * d2) == (c * d2) * (b * b2)) by (nonlinear_arith);
    assert((a2 * b) * (d * d2) == (a2 * d2) * (b * d)) by (nonlinear_arith);
    assert((c2 * d) * (b * b2) == (c2 * b2) * (b * d)) by (nonlinear_arith);
    let common = b * d;
    assert(common > 0) by (nonlinear_arith)
        requires
            b > 0,
            d > 0,
            common == b * d,
    ;
    assert((a2 * d2) * common >= (c2 * b2) * common);
    assert(a2 * d2 >= c2 * b2) by (nonlinear_arith)
        requires
            (a2 * d2) * common >= (c2 * b2) * common,
            common > 0,
    ;
}

/// How far one straight line lies above another, at the temperature `t / k` and times `k`.
spec fn distance(c: (int, int, int), p: (int, int, int), t: int, k: int) -> int {
    (c.0 * k + c.1 * t) * p.2 - (p.0 * k + p.1 * t) * c.2
}

proof fn lemma_distance_at_point(
    candidate: Seq<CurvePointConfig>,
    protected: Seq<CurvePointConfig>,
    i: int,
    j: int,
    x: int,
)
    requires
        is_curve(candidate),
        is_curve(protected),
        lies_on(candidate, i, x, 1),
        lies_on(protected, j, x, 1),
        !is_below(candidate, protected, x, 1),
    ensures
        distance(line_of(candidate, i), line_of(protected, j), x, 1) >= 0,
{
    lemma_demand_on_piece(candidate, i, x, 1);
    lemma_demand_on_piece(protected, j, x, 1);
    let c = demand_at(candidate, x, 1);
    let p = demand_at(protected, x, 1);
    let f = line_of(candidate, i);
    let g = line_of(protected, j);
    lemma_fractions_compare(
        c.0,
        c.1,
        p.0,
        p.1,
        f.0 * 1 + f.1 * x,
        f.2 * 1,
        g.0 * 1 + g.1 * x,
        g.2 * 1,
    );
}

/// A straight line that lies above another at two temperatures does so between them.
proof fn lemma_distance_between(
    c: (int, int, int),
    p: (int, int, int),
    a: int,
    b: int,
    t: int,
    k: int,
)
    requires
        k > 0,
        a * k <= t <= b * k,
        distance(c, p, a, 1) >= 0,
        distance(c, p, b, 1) >= 0,
    ensures
        distance(c, p, t, k) >= 0,
{
    let base = c.0 * p.2 - p.0 * c.2;
    let rise = c.1 * p.2 - p.1 * c.2;
    lemma_distance_is_straight(c, p, a, 1);
    lemma_distance_is_straight(c, p, b, 1);
    lemma_distance_is_straight(c, p, t, k);
    let from = base + rise * a;
    let to = base + rise * b;
    assert(base * 1 + rise * a == from);
    assert(base * 1 + rise * b == to);
    assert(base * k + rise * t >= 0) by (nonlinear_arith)
        requires
            k > 0,
            a * k <= t,
            t <= b * k,
            from == base + rise * a,
            to == base + rise * b,
            from >= 0,
            to >= 0,
    {
        if rise >= 0 {
            assert(rise * t >= rise * (a * k));
            assert(base * k + rise * (a * k) == from * k);
            assert(from * k >= 0);
        } else {
            assert(rise * t >= rise * (b * k));
            assert(base * k + rise * (b * k) == to * k);
            assert(to * k >= 0);
        }
    }
}

proof fn lemma_distance_is_straight(c: (int, int, int), p: (int, int, int), t: int, k: int)
    ensures
        distance(c, p, t, k) == (c.0 * p.2 - p.0 * c.2) * k + (c.1 * p.2 - p.1 * c.2) * t,
{
    let (c0, c1, c2) = c;
    let (p0, p1, p2) = p;
    assert((c0 * k + c1 * t) * p2 == (c0 * p2) * k + (c1 * p2) * t) by (nonlinear_arith);
    assert((p0 * k + p1 * t) * c2 == (p0 * c2) * k + (p1 * c2) * t) by (nonlinear_arith);
    let u = c0 * p2;
    let v = p0 * c2;
    let w = c1 * p2;
    let z = p1 * c2;
    assert(u * k - v * k == (u - v) * k) by (nonlinear_arith);
    assert(w * t - z * t == (w - z) * t) by (nonlinear_arith);
}

proof fn lemma_scaled(x: int, y: int, k: int)
    requires
        k > 0,
    ensures
        x <= y <==> x * k <= y * k,
{
    assert(x <= y ==> x * k <= y * k) by (nonlinear_arith)
        requires
            k > 0,
    ;
    assert(x > y ==> x * k > y * k) by (nonlinear_arith)
        requires
            k > 0,
    ;
}

/// A candidate that demands no less than the protected curve at every point of either demands no
/// less at any temperature `t / k` at all.
pub proof fn envelope_holds_between_points(
    candidate: Seq<CurvePointConfig>,
    protected: Seq<CurvePointConfig>,
    t: int,
    k: int,
)
    requires
        is_curve(candidate),
        is_curve(protected),
        stays_above(candidate, protected),
        k > 0,
    ensures
        !is_below(candidate, protected, t, k),
{
    let i = lemma_find_piece(candidate, t, k);
    let j = lemma_find_piece(protected, t, k);
    let f = line_of(candidate, i);
    let g = line_of(protected, j);
    lemma_demand_on_piece(candidate, i, t, k);
    lemma_demand_on_piece(protected, j, t, k);
    let has_lower = i >= 0 || j >= 0;
    let has_upper = i + 1 < candidate.len() || j + 1 < protected.len();
    let a = if i >= 0 && (j < 0 || candidate[i].temperature_c >= protected[j].temperature_c) {
        candidate[i].temperature_c as int
    } else {
        protected[if j >= 0 { j } else { 0 }].temperature_c as int
    };
    let b = if i + 1 < candidate.len() && (j + 1 >= protected.len() || candidate[i
        + 1].temperature_c <= protected[j + 1].temperature_c) {
        candidate[i + 1].temperature_c as int
    } else {
        protected[if j + 1 < protected.len() { j + 1 } else { 0 }].temperature_c as int
    };
    if has_lower && has_upper {
        lemma_scaled(a, b, k);
        lemma_lies_at(candidate, i, t, k, a, b);
        lemma_lies_at(protected, j, t, k, a, b);
        assert(has_point(candidate, a) || has_point(protected, a));
        assert(has_point(candidate, b) || has_point(protected, b));
        assert(!is_below(candidate, protected, a, 1));
        assert(!is_below(candidate, protected, b, 1));
        lemma_distance_at_point(candidate, protected, i, j, a);
        lemma_distance_at_point(candidate, protected, i, j, b);
        lemma_distance_between(f, g, a, b, t, k);
    } else if has_upper {
        assert(has_point(candidate, b) || has_point(protected, b));
        assert(!is_below(candidate, protected, b, 1));
        lemma_distance_at_point(candidate, protected, i, j, b);
        lemma_flat(f, g, b, t, k);
    } else {
        assert(has_point(candidate, a) || has_point(protected, a));
        assert(!is_below(candidate, protected, a, 1));
        lemma_distance_at_point(candidate, protected, i, j, a);
        lemma_flat(f, g, a, t, k);
    }
    let c = demand_at(candidate, t, k);
    let p = demand_at(protected, t, k);
    let line = f.0 * k + f.1 * t;
    let gn = g.0 * k + g.1 * t;
    assert(f.2 * k > 0 && g.2 * k > 0) by (nonlinear_arith)
        requires
            f.2 > 0,
            g.2 > 0,
            k > 0,
    ;
    assert(line * (g.2 * k) >= gn * (f.2 * k)) by (nonlinear_arith)
        requires
            line * g.2 - gn * f.2 >= 0,
            k > 0,
    ;
    assert(line * c.1 == c.0 * (f.2 * k));
    assert(gn * p.1 == p.0 * (g.2 * k));
    lemma_fractions_compare(line, f.2 * k, gn, g.2 * k, c.0, c.1, p.0, p.1);
}

/// Both ends of the common stretch of two pieces lie on each of them.
proof fn lemma_lies_at(points: Seq<CurvePointConfig>, i: int, t: int, k: int, a: int, b: int)
    requires
        is_curve(points),
        k > 0,
        lies_on(points, i, t, k),
        a * k <= t <= b * k,
        i >= 0 ==> points[i].temperature_c <= a,
        i + 1 < points.len() ==> b <= points[i + 1].temperature_c,
    ensures
        lies_on(points, i, a, 1),
        lies_on(points, i, b, 1),
{
    lemma_scaled(a, b, k);
}

proof fn lemma_flat(c: (int, int, int), p: (int, int, int), x: int, t: int, k: int)
    requires
        k > 0,
        c.1 == 0,
        p.1 == 0,
        distance(c, p, x, 1) >= 0,
    ensures
        distance(c, p, t, k) >= 0,
{
    lemma_distance_is_straight(c, p, x, 1);
    lemma_distance_is_straight(c, p, t, k);
    let base = c.0 * p.2 - p.0 * c.2;
    assert(base >= 0);
    assert(base * k >= 0) by (nonlinear_arith)
        requires
            base >= 0,
            k > 0,
    ;
}

/// A covered candidate never lets a fan idle lower, and never demands less cooling at any
/// temperature, than the protected configuration.
pub proof fn covered_candidate_never_undercuts(
    candidate: ConfigModel,
    protected: ConfigModel,
    profile: Profile,
    component: Component,
    fan: Fan,
    t: int,
    k: int,
)
    requires
        candidate.is_valid(),
        protected.is_valid(),
        is_covered(candidate, protected),
        k > 0,
    ensures
        protected.floor(fan) <= candidate.floor(fan),
        !is_below(candidate.curve(profile, component), protected.curve(profile, component), t, k),
{
    envelope_holds_between_points(
        candidate.curve(profile, component),
        protected.curve(profile, component),
        t,
        k,
    );
}

} // verus!
