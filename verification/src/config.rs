//! Fan floors and demand curves of a configuration.

use vstd::prelude::*;
use vstd::string::*;
use crate::tachometer::Fan;
use crate::text::{join, join3};

verus! {

broadcast use vstd::string::group_string_axioms;

#[derive(Debug, Clone, Copy, PartialEq, Eq, Structural)]
pub struct FanConfig {
    pub minimum_duty_percent: i64,
}

#[derive(Debug, Clone, Copy, PartialEq, Eq, Structural)]
pub struct FansConfig {
    pub cpu: FanConfig,
    pub gpu: FanConfig,
}

#[derive(Debug, Clone, Copy, PartialEq, Eq, Structural)]
pub struct CurvePointConfig {
    pub temperature_c: i64,
    pub demand_percent: i64,
}

#[derive(Debug, PartialEq)]
pub struct ProfileConfig {
    pub cpu_curve: Vec<CurvePointConfig>,
    pub gpu_curve: Vec<CurvePointConfig>,
}

#[derive(Debug, PartialEq)]
pub struct ProfilesConfig {
    pub ac: ProfileConfig,
    pub battery: ProfileConfig,
}

/// A power profile.
#[derive(Debug, Clone, Copy, PartialEq, Eq, Structural)]
pub enum Profile {
    Ac,
    Battery,
}

impl Profile {
    /// The text of the profile's name.
    pub open spec fn label(self) -> Seq<char> {
        match self {
            Profile::Ac => "ac"@,
            Profile::Battery => "battery"@,
        }
    }

    pub fn name(self) -> (name: &'static str)
        ensures
            name@ == self.label(),
    {
        match self {
            Profile::Ac => "ac",
            Profile::Battery => "battery",
        }
    }
}

/// A cooled component.
#[derive(Debug, Clone, Copy, PartialEq, Eq, Structural)]
pub enum Component {
    Cpu,
    Gpu,
}

impl Component {
    /// The text of the component's name.
    pub open spec fn label(self) -> Seq<char> {
        match self {
            Component::Cpu => "cpu"@,
            Component::Gpu => "gpu"@,
        }
    }

    pub fn name(self) -> (name: &'static str)
        ensures
            name@ == self.label(),
    {
        match self {
            Component::Cpu => "cpu",
            Component::Gpu => "gpu",
        }
    }
}

/// Why a list of points is no demand curve.
#[derive(Debug, Clone, Copy, PartialEq, Eq, Structural)]
pub enum DemandCurveError {
    Empty,
    NotStrictlyIncreasing,
}

/// Why a configuration cannot be used.
#[derive(Debug, Clone, Copy, PartialEq, Eq, Structural)]
pub enum ConfigValidationError {
    FloorOutOfRange { fan: Fan },
    DemandOutOfRange { profile: Profile, component: Component },
    TemperatureOutOfRange { profile: Profile, component: Component },
    Curve { profile: Profile, component: Component, error: DemandCurveError },
}

impl ConfigValidationError {
    /// The text of the message.
    pub open spec fn text(self) -> Seq<char> {
        match self {
            ConfigValidationError::FloorOutOfRange { fan } => fan.label()
                + " fan floor must lie within 0..=100 percent"@,
            ConfigValidationError::DemandOutOfRange { profile, component } => profile.label() + "."@
                + component.label() + " demand must lie within 0..=100 percent"@,
            ConfigValidationError::TemperatureOutOfRange { profile, component } => profile.label()
                + "."@ + component.label() + " temperature cannot be recorded"@,
            ConfigValidationError::Curve { profile, component, error } => profile.label() + "."@
                + component.label() + match error {
                DemandCurveError::Empty => " curve has no point"@,
                DemandCurveError::NotStrictlyIncreasing =>
                    " curve temperatures must strictly increase"@,
            },
        }
    }

    /// The message shown to an operator.
    pub fn message(&self) -> (text: String)
        ensures
            text@ == self.text(),
    {
        match self {
            ConfigValidationError::FloorOutOfRange { fan } => join(
                fan.name(),
                " fan floor must lie within 0..=100 percent",
            ),
            ConfigValidationError::DemandOutOfRange { profile, component } => {
                let mut text = join3(profile.name(), ".", component.name());
                text.append(" demand must lie within 0..=100 percent");
                text
            },
            ConfigValidationError::TemperatureOutOfRange { profile, component } => {
                let mut text = join3(profile.name(), ".", component.name());
                text.append(" temperature cannot be recorded");
                text
            },
            ConfigValidationError::Curve { profile, component, error } => {
                let mut text = join3(profile.name(), ".", component.name());
                text.append(
                    match error {
                        DemandCurveError::Empty => " curve has no point",
                        DemandCurveError::NotStrictlyIncreasing =>
                            " curve temperatures must strictly increase",
                    },
                );
                text
            },
        }
    }
}

/// Whether a value is a percentage.
pub open spec fn is_percentage(value: i64) -> bool {
    0 <= value <= 100
}

/// Whether a temperature fits the millicelsius in which temperatures are recorded.
pub open spec fn is_recordable(temperature_c: i64) -> bool {
    -2_147_483 <= temperature_c <= 2_147_483
}

/// Whether temperatures strictly increase.
pub open spec fn strictly_increases(points: Seq<CurvePointConfig>) -> bool {
    forall|i: int|
        0 < i < points.len() ==> points[i - 1].temperature_c < (#[trigger] points[i]).temperature_c
}

/// Whether points are a demand curve.
pub open spec fn is_curve(points: Seq<CurvePointConfig>) -> bool {
    &&& points.len() > 0
    &&& strictly_increases(points)
    &&& forall|i: int|
        0 <= i < points.len() ==> is_percentage((#[trigger] points[i]).demand_percent)
            && is_recordable(points[i].temperature_c)
}

/// What is wrong with a list of points.
pub open spec fn curve_error(
    points: Seq<CurvePointConfig>,
    profile: Profile,
    component: Component,
) -> Option<ConfigValidationError> {
    if exists|i: int|
        0 <= i < points.len() && !is_percentage((#[trigger] points[i]).demand_percent) {
        Some(ConfigValidationError::DemandOutOfRange { profile, component })
    } else if exists|i: int|
        0 <= i < points.len() && !is_recordable((#[trigger] points[i]).temperature_c) {
        Some(ConfigValidationError::TemperatureOutOfRange { profile, component })
    } else if points.len() == 0 {
        Some(
            ConfigValidationError::Curve { profile, component, error: DemandCurveError::Empty },
        )
    } else if !strictly_increases(points) {
        Some(
            ConfigValidationError::Curve {
                profile,
                component,
                error: DemandCurveError::NotStrictlyIncreasing,
            },
        )
    } else {
        None
    }
}

fn demands_are_percentages(points: &Vec<CurvePointConfig>) -> (yes: bool)
    ensures
        yes == forall|i: int|
            0 <= i < points@.len() ==> is_percentage((#[trigger] points@[i]).demand_percent),
{
    let mut i: usize = 0;
    while i < points.len()
        invariant
            i <= points.len(),
            forall|k: int| 0 <= k < i ==> is_percentage((#[trigger] points@[k]).demand_percent),
        decreases points.len() - i,
    {
        if points[i].demand_percent < 0 || points[i].demand_percent > 100 {
            return false;
        }
        i = i + 1;
    }
    true
}

fn temperatures_are_recordable(points: &Vec<CurvePointConfig>) -> (yes: bool)
    ensures
        yes == forall|i: int|
            0 <= i < points@.len() ==> is_recordable((#[trigger] points@[i]).temperature_c),
{
    let mut i: usize = 0;
    while i < points.len()
        invariant
            i <= points.len(),
            forall|k: int| 0 <= k < i ==> is_recordable((#[trigger] points@[k]).temperature_c),
        decreases points.len() - i,
    {
        if points[i].temperature_c < -2_147_483 || points[i].temperature_c > 2_147_483 {
            return false;
        }
        i = i + 1;
    }
    true
}

fn temperatures_increase(points: &Vec<CurvePointConfig>) -> (yes: bool)
    ensures
        yes == strictly_increases(points@),
{
    let mut i: usize = 1;
    while i < points.len()
        invariant
            1 <= i,
            forall|k: int|
                0 < k < i && k < points@.len() ==> points@[k - 1].temperature_c < (
                #[trigger] points@[k]).temperature_c,
        decreases points.len() - i,
    {
        if points[i - 1].temperature_c >= points[i].temperature_c {
            return false;
        }
        i = i + 1;
    }
    true
}

fn validate_curve(
    points: &Vec<CurvePointConfig>,
    profile: Profile,
    component: Component,
) -> (result: Result<(), ConfigValidationError>)
    ensures
        match curve_error(points@, profile, component) {
            Some(error) => result == Err::<(), ConfigValidationError>(error),
            None => result is Ok && is_curve(points@),
        },
{
    if !demands_are_percentages(points) {
        return Err(ConfigValidationError::DemandOutOfRange { profile, component });
    }
    if !temperatures_are_recordable(points) {
        return Err(ConfigValidationError::TemperatureOutOfRange { profile, component });
    }
    if points.len() == 0 {
        return Err(
            ConfigValidationError::Curve { profile, component, error: DemandCurveError::Empty },
        );
    }
    if !temperatures_increase(points) {
        return Err(
            ConfigValidationError::Curve {
                profile,
                component,
                error: DemandCurveError::NotStrictlyIncreasing,
            },
        );
    }
    Ok(())
}

/// A configuration that can be used.
#[derive(Debug, PartialEq)]
pub struct ValidatedConfig {
    fans: FansConfig,
    profiles: ProfilesConfig,
}

/// The contents of a configuration.
pub struct ConfigModel {
    pub cpu_floor: i64,
    pub gpu_floor: i64,
    pub ac_cpu: Seq<CurvePointConfig>,
    pub ac_gpu: Seq<CurvePointConfig>,
    pub battery_cpu: Seq<CurvePointConfig>,
    pub battery_gpu: Seq<CurvePointConfig>,
}

impl ConfigModel {
    /// The floor of a fan.
    pub open spec fn floor(self, fan: Fan) -> i64 {
        match fan {
            Fan::Cpu => self.cpu_floor,
            Fan::Gpu => self.gpu_floor,
        }
    }

    /// The curve of a component on a profile.
    pub open spec fn curve(self, profile: Profile, component: Component) -> Seq<CurvePointConfig> {
        match (profile, component) {
            (Profile::Ac, Component::Cpu) => self.ac_cpu,
            (Profile::Ac, Component::Gpu) => self.ac_gpu,
            (Profile::Battery, Component::Cpu) => self.battery_cpu,
            (Profile::Battery, Component::Gpu) => self.battery_gpu,
        }
    }

    /// Whether floors are percentages and curves are curves.
    pub open spec fn is_valid(self) -> bool {
        &&& is_percentage(self.cpu_floor)
        &&& is_percentage(self.gpu_floor)
        &&& is_curve(self.ac_cpu)
        &&& is_curve(self.ac_gpu)
        &&& is_curve(self.battery_cpu)
        &&& is_curve(self.battery_gpu)
    }
}

/// The contents of raw floors and curves.
pub open spec fn config_of(fans: FansConfig, profiles: ProfilesConfig) -> ConfigModel {
    ConfigModel {
        cpu_floor: fans.cpu.minimum_duty_percent,
        gpu_floor: fans.gpu.minimum_duty_percent,
        ac_cpu: profiles.ac.cpu_curve@,
        ac_gpu: profiles.ac.gpu_curve@,
        battery_cpu: profiles.battery.cpu_curve@,
        battery_gpu: profiles.battery.gpu_curve@,
    }
}

/// What is wrong with floors and curves, in order.
pub open spec fn config_error(m: ConfigModel) -> Option<ConfigValidationError> {
    if !is_percentage(m.cpu_floor) {
        Some(ConfigValidationError::FloorOutOfRange { fan: Fan::Cpu })
    } else if !is_percentage(m.gpu_floor) {
        Some(ConfigValidationError::FloorOutOfRange { fan: Fan::Gpu })
    } else if curve_error(m.ac_cpu, Profile::Ac, Component::Cpu) is Some {
        curve_error(m.ac_cpu, Profile::Ac, Component::Cpu)
    } else if curve_error(m.ac_gpu, Profile::Ac, Component::Gpu) is Some {
        curve_error(m.ac_gpu, Profile::Ac, Component::Gpu)
    } else if curve_error(m.battery_cpu, Profile::Battery, Component::Cpu) is Some {
        curve_error(m.battery_cpu, Profile::Battery, Component::Cpu)
    } else {
        curve_error(m.battery_gpu, Profile::Battery, Component::Gpu)
    }
}

impl View for ValidatedConfig {
    type V = ConfigModel;

    closed spec fn view(&self) -> ConfigModel {
        config_of(self.fans, self.profiles)
    }
}

impl Clone for ProfileConfig {
    fn clone(&self) -> (copy: ProfileConfig)
        ensures
            copy.cpu_curve@ == self.cpu_curve@,
            copy.gpu_curve@ == self.gpu_curve@,
    {
        ProfileConfig {
            cpu_curve: clone_curve(&self.cpu_curve),
            gpu_curve: clone_curve(&self.gpu_curve),
        }
    }
}

impl Clone for ProfilesConfig {
    fn clone(&self) -> (copy: ProfilesConfig)
        ensures
            copy.ac.cpu_curve@ == self.ac.cpu_curve@,
            copy.ac.gpu_curve@ == self.ac.gpu_curve@,
            copy.battery.cpu_curve@ == self.battery.cpu_curve@,
            copy.battery.gpu_curve@ == self.battery.gpu_curve@,
    {
        ProfilesConfig { ac: self.ac.clone(), battery: self.battery.clone() }
    }
}

fn clone_curve(points: &Vec<CurvePointConfig>) -> (copy: Vec<CurvePointConfig>)
    ensures
        copy@ == points@,
{
    let mut copy: Vec<CurvePointConfig> = Vec::new();
    let mut i: usize = 0;
    while i < points.len()
        invariant
            i <= points.len(),
            copy@ == points@.take(i as int),
        decreases points.len() - i,
    {
        copy.push(points[i]);
        i = i + 1;
        assert(copy@ =~= points@.take(i as int));
    }
    assert(copy@ =~= points@);
    copy
}

impl Clone for ValidatedConfig {
    fn clone(&self) -> (copy: ValidatedConfig)
        ensures
            copy@ == self@,
    {
        proof {
            use_type_invariant(self);
        }
        ValidatedConfig {
            fans: self.fans,
            profiles: self.profiles.clone(),
        }
    }
}

impl ValidatedConfig {
    #[verifier::type_invariant]
    closed spec fn is_usable(self) -> bool {
        config_of(self.fans, self.profiles).is_valid()
    }

    /// Validates floors and curves.
    pub fn from_parts(fans: FansConfig, profiles: ProfilesConfig) -> (result: Result<
        ValidatedConfig,
        ConfigValidationError,
    >)
        ensures
            match config_error(config_of(fans, profiles)) {
                Some(error) => result matches Err(e) && e == error,
                None => result matches Ok(config) && config@ == config_of(fans, profiles)
                    && config@.is_valid(),
            },
    {
        if fans.cpu.minimum_duty_percent < 0 || fans.cpu.minimum_duty_percent > 100 {
            return Err(ConfigValidationError::FloorOutOfRange { fan: Fan::Cpu });
        }
        if fans.gpu.minimum_duty_percent < 0 || fans.gpu.minimum_duty_percent > 100 {
            return Err(ConfigValidationError::FloorOutOfRange { fan: Fan::Gpu });
        }
        match validate_curve(&profiles.ac.cpu_curve, Profile::Ac, Component::Cpu) {
            Ok(()) => {},
            Err(error) => {
                return Err(error);
            },
        }
        match validate_curve(&profiles.ac.gpu_curve, Profile::Ac, Component::Gpu) {
            Ok(()) => {},
            Err(error) => {
                return Err(error);
            },
        }
        match validate_curve(&profiles.battery.cpu_curve, Profile::Battery, Component::Cpu) {
            Ok(()) => {},
            Err(error) => {
                return Err(error);
            },
        }
        match validate_curve(&profiles.battery.gpu_curve, Profile::Battery, Component::Gpu) {
            Ok(()) => {},
            Err(error) => {
                return Err(error);
            },
        }
        Ok(ValidatedConfig { fans, profiles })
    }

    /// The floor of a fan, in percent.
    pub fn floor(&self, fan: Fan) -> (percent: i64)
        ensures
            percent == self@.floor(fan),
            is_percentage(percent),
    {
        proof {
            use_type_invariant(self);
        }
        match fan {
            Fan::Cpu => self.fans.cpu.minimum_duty_percent,
            Fan::Gpu => self.fans.gpu.minimum_duty_percent,
        }
    }

    /// The curve of a component on a profile.
    pub fn curve(&self, profile: Profile, component: Component) -> (points: &Vec<CurvePointConfig>)
        ensures
            points@ == self@.curve(profile, component),
            is_curve(points@),
    {
        proof {
            use_type_invariant(self);
        }
        match (profile, component) {
            (Profile::Ac, Component::Cpu) => &self.profiles.ac.cpu_curve,
            (Profile::Ac, Component::Gpu) => &self.profiles.ac.gpu_curve,
            (Profile::Battery, Component::Cpu) => &self.profiles.battery.cpu_curve,
            (Profile::Battery, Component::Gpu) => &self.profiles.battery.gpu_curve,
        }
    }
}

} // verus!
