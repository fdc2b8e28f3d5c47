//! The fields that runtime events may carry.

use vstd::prelude::*;
use vstd::string::*;
use crate::diagnostic_ids::EventKind;
use crate::text::{is_ordered, order_is_transitive, same_text};

verus! {

broadcast use vstd::string::group_string_axioms;

/// The number of fields that can be recorded.
pub const FIELD_COUNT: u8 = 32;

/// A field that can be recorded. All others are dropped.
#[derive(Debug, Clone, Copy, PartialEq, Eq, Structural)]
pub enum FieldName {
    Attempt,
    CpuCommandPwm,
    CpuEnableEndpoint,
    CpuModeReadback,
    CpuPwmEndpoint,
    CpuReadbackPwm,
    CpuRpm,
    CpuRpmCommandPwm,
    CpuTachometerEndpoint,
    CpuTemperatureCelsius,
    CpuWriteSucceeded,
    DemandPercent,
    DiagnosticContract,
    Endpoint,
    EventId,
    ExternalPower,
    FaultId,
    FromState,
    GpuCommandPwm,
    GpuEnableEndpoint,
    GpuModeReadback,
    GpuPwmEndpoint,
    GpuReadbackPwm,
    GpuRpm,
    GpuRpmCommandPwm,
    GpuTachometerEndpoint,
    GpuTemperatureCelsius,
    GpuWriteSucceeded,
    Message,
    Profile,
    Reason,
    ToState,
}

impl FieldName {
    /// The text of the field's name.
    pub open spec fn label(self) -> Seq<char> {
        match self {
            FieldName::Attempt => "attempt"@,
            FieldName::CpuCommandPwm => "cpu_command_pwm"@,
            FieldName::CpuEnableEndpoint => "cpu_enable_endpoint"@,
            FieldName::CpuModeReadback => "cpu_mode_readback"@,
            FieldName::CpuPwmEndpoint => "cpu_pwm_endpoint"@,
            FieldName::CpuReadbackPwm => "cpu_readback_pwm"@,
            FieldName::CpuRpm => "cpu_rpm"@,
            FieldName::CpuRpmCommandPwm => "cpu_rpm_command_pwm"@,
            FieldName::CpuTachometerEndpoint => "cpu_tachometer_endpoint"@,
            FieldName::CpuTemperatureCelsius => "cpu_temperature_celsius"@,
            FieldName::CpuWriteSucceeded => "cpu_write_succeeded"@,
            FieldName::DemandPercent => "demand_percent"@,
            FieldName::DiagnosticContract => "diagnostic_contract"@,
            FieldName::Endpoint => "endpoint"@,
            FieldName::EventId => "event_id"@,
            FieldName::ExternalPower => "external_power"@,
            FieldName::FaultId => "fault_id"@,
            FieldName::FromState => "from_state"@,
            FieldName::GpuCommandPwm => "gpu_command_pwm"@,
            FieldName::GpuEnableEndpoint => "gpu_enable_endpoint"@,
            FieldName::GpuModeReadback => "gpu_mode_readback"@,
            FieldName::GpuPwmEndpoint => "gpu_pwm_endpoint"@,
            FieldName::GpuReadbackPwm => "gpu_readback_pwm"@,
            FieldName::GpuRpm => "gpu_rpm"@,
            FieldName::GpuRpmCommandPwm => "gpu_rpm_command_pwm"@,
            FieldName::GpuTachometerEndpoint => "gpu_tachometer_endpoint"@,
            FieldName::GpuTemperatureCelsius => "gpu_temperature_celsius"@,
            FieldName::GpuWriteSucceeded => "gpu_write_succeeded"@,
            FieldName::Message => "message"@,
            FieldName::Profile => "profile"@,
            FieldName::Reason => "reason"@,
            FieldName::ToState => "to_state"@,
        }
    }

    pub fn name(self) -> (name: &'static str)
        ensures
            name@ == self.label(),
    {
        match self {
            FieldName::Attempt => "attempt",
            FieldName::CpuCommandPwm => "cpu_command_pwm",
            FieldName::CpuEnableEndpoint => "cpu_enable_endpoint",
            FieldName::CpuModeReadback => "cpu_mode_readback",
            FieldName::CpuPwmEndpoint => "cpu_pwm_endpoint",
            FieldName::CpuReadbackPwm => "cpu_readback_pwm",
            FieldName::CpuRpm => "cpu_rpm",
            FieldName::CpuRpmCommandPwm => "cpu_rpm_command_pwm",
            FieldName::CpuTachometerEndpoint => "cpu_tachometer_endpoint",
            FieldName::CpuTemperatureCelsius => "cpu_temperature_celsius",
            FieldName::CpuWriteSucceeded => "cpu_write_succeeded",
            FieldName::DemandPercent => "demand_percent",
            FieldName::DiagnosticContract => "diagnostic_contract",
            FieldName::Endpoint => "endpoint",
            FieldName::EventId => "event_id",
            FieldName::ExternalPower => "external_power",
            FieldName::FaultId => "fault_id",
            FieldName::FromState => "from_state",
            FieldName::GpuCommandPwm => "gpu_command_pwm",
            FieldName::GpuEnableEndpoint => "gpu_enable_endpoint",
            FieldName::GpuModeReadback => "gpu_mode_readback",
            FieldName::GpuPwmEndpoint => "gpu_pwm_endpoint",
            FieldName::GpuReadbackPwm => "gpu_readback_pwm",
            FieldName::GpuRpm => "gpu_rpm",
            FieldName::GpuRpmCommandPwm => "gpu_rpm_command_pwm",
            FieldName::GpuTachometerEndpoint => "gpu_tachometer_endpoint",
            FieldName::GpuTemperatureCelsius => "gpu_temperature_celsius",
            FieldName::GpuWriteSucceeded => "gpu_write_succeeded",
            FieldName::Message => "message",
            FieldName::Profile => "profile",
            FieldName::Reason => "reason",
            FieldName::ToState => "to_state",
        }
    }

    /// The place of the field in the order of names.
    #[verifier::opaque]
    pub open spec fn place(self) -> u8 {
        match self {
            FieldName::Attempt => 0,
            FieldName::CpuCommandPwm => 1,
            FieldName::CpuEnableEndpoint => 2,
            FieldName::CpuModeReadback => 3,
            FieldName::CpuPwmEndpoint => 4,
            FieldName::CpuReadbackPwm => 5,
            FieldName::CpuRpm => 6,
            FieldName::CpuRpmCommandPwm => 7,
            FieldName::CpuTachometerEndpoint => 8,
            FieldName::CpuTemperatureCelsius => 9,
            FieldName::CpuWriteSucceeded => 10,
            FieldName::DemandPercent => 11,
            FieldName::DiagnosticContract => 12,
            FieldName::Endpoint => 13,
            FieldName::EventId => 14,
            FieldName::ExternalPower => 15,
            FieldName::FaultId => 16,
            FieldName::FromState => 17,
            FieldName::GpuCommandPwm => 18,
            FieldName::GpuEnableEndpoint => 19,
            FieldName::GpuModeReadback => 20,
            FieldName::GpuPwmEndpoint => 21,
            FieldName::GpuReadbackPwm => 22,
            FieldName::GpuRpm => 23,
            FieldName::GpuRpmCommandPwm => 24,
            FieldName::GpuTachometerEndpoint => 25,
            FieldName::GpuTemperatureCelsius => 26,
            FieldName::GpuWriteSucceeded => 27,
            FieldName::Message => 28,
            FieldName::Profile => 29,
            FieldName::Reason => 30,
            FieldName::ToState => 31,
        }
    }

    pub fn position(self) -> (position: u8)
        ensures
            position == self.place(),
            position < FIELD_COUNT,
    {
        proof {
            reveal(FieldName::place);
        }
        match self {
            FieldName::Attempt => 0,
            FieldName::CpuCommandPwm => 1,
            FieldName::CpuEnableEndpoint => 2,
            FieldName::CpuModeReadback => 3,
            FieldName::CpuPwmEndpoint => 4,
            FieldName::CpuReadbackPwm => 5,
            FieldName::CpuRpm => 6,
            FieldName::CpuRpmCommandPwm => 7,
            FieldName::CpuTachometerEndpoint => 8,
            FieldName::CpuTemperatureCelsius => 9,
            FieldName::CpuWriteSucceeded => 10,
            FieldName::DemandPercent => 11,
            FieldName::DiagnosticContract => 12,
            FieldName::Endpoint => 13,
            FieldName::EventId => 14,
            FieldName::ExternalPower => 15,
            FieldName::FaultId => 16,
            FieldName::FromState => 17,
            FieldName::GpuCommandPwm => 18,
            FieldName::GpuEnableEndpoint => 19,
            FieldName::GpuModeReadback => 20,
            FieldName::GpuPwmEndpoint => 21,
            FieldName::GpuReadbackPwm => 22,
            FieldName::GpuRpm => 23,
            FieldName::GpuRpmCommandPwm => 24,
            FieldName::GpuTachometerEndpoint => 25,
            FieldName::GpuTemperatureCelsius => 26,
            FieldName::GpuWriteSucceeded => 27,
            FieldName::Message => 28,
            FieldName::Profile => 29,
            FieldName::Reason => 30,
            FieldName::ToState => 31,
        }
    }

    /// The field at a place in the order of names.
    pub fn at(position: u8) -> (field: FieldName)
        requires
            position < FIELD_COUNT,
        ensures
            field.place() == position,
    {
        proof {
            reveal(FieldName::place);
        }
        match position {
            0 => FieldName::Attempt,
            1 => FieldName::CpuCommandPwm,
            2 => FieldName::CpuEnableEndpoint,
            3 => FieldName::CpuModeReadback,
            4 => FieldName::CpuPwmEndpoint,
            5 => FieldName::CpuReadbackPwm,
            6 => FieldName::CpuRpm,
            7 => FieldName::CpuRpmCommandPwm,
            8 => FieldName::CpuTachometerEndpoint,
            9 => FieldName::CpuTemperatureCelsius,
            10 => FieldName::CpuWriteSucceeded,
            11 => FieldName::DemandPercent,
            12 => FieldName::DiagnosticContract,
            13 => FieldName::Endpoint,
            14 => FieldName::EventId,
            15 => FieldName::ExternalPower,
            16 => FieldName::FaultId,
            17 => FieldName::FromState,
            18 => FieldName::GpuCommandPwm,
            19 => FieldName::GpuEnableEndpoint,
            20 => FieldName::GpuModeReadback,
            21 => FieldName::GpuPwmEndpoint,
            22 => FieldName::GpuReadbackPwm,
            23 => FieldName::GpuRpm,
            24 => FieldName::GpuRpmCommandPwm,
            25 => FieldName::GpuTachometerEndpoint,
            26 => FieldName::GpuTemperatureCelsius,
            27 => FieldName::GpuWriteSucceeded,
            28 => FieldName::Message,
            29 => FieldName::Profile,
            30 => FieldName::Reason,
            _ => FieldName::ToState,
        }
    }

    /// The text of the field's name in the journal; the contract marker has none.
    pub open spec fn native_label(self) -> Option<Seq<char>> {
        match self {
            FieldName::Attempt => Some("PT31553_ATTEMPT"@),
            FieldName::CpuCommandPwm => Some("PT31553_CPU_COMMAND_PWM"@),
            FieldName::CpuEnableEndpoint => Some("PT31553_CPU_ENABLE_ENDPOINT"@),
            FieldName::CpuModeReadback => Some("PT31553_CPU_MODE_READBACK"@),
            FieldName::CpuPwmEndpoint => Some("PT31553_CPU_PWM_ENDPOINT"@),
            FieldName::CpuReadbackPwm => Some("PT31553_CPU_READBACK_PWM"@),
            FieldName::CpuRpm => Some("PT31553_CPU_RPM"@),
            FieldName::CpuRpmCommandPwm => Some("PT31553_CPU_RPM_COMMAND_PWM"@),
            FieldName::CpuTachometerEndpoint => Some("PT31553_CPU_TACHOMETER_ENDPOINT"@),
            FieldName::CpuTemperatureCelsius => Some("PT31553_CPU_TEMPERATURE_CELSIUS"@),
            FieldName::CpuWriteSucceeded => Some("PT31553_CPU_WRITE_SUCCEEDED"@),
            FieldName::DemandPercent => Some("PT31553_DEMAND_PERCENT"@),
            FieldName::DiagnosticContract => None,
            FieldName::Endpoint => Some("PT31553_ENDPOINT"@),
            FieldName::EventId => Some("PT31553_EVENT_ID"@),
            FieldName::ExternalPower => Some("PT31553_EXTERNAL_POWER"@),
            FieldName::FaultId => Some("PT31553_FAULT_ID"@),
            FieldName::FromState => Some("PT31553_FROM_STATE"@),
            FieldName::GpuCommandPwm => Some("PT31553_GPU_COMMAND_PWM"@),
            FieldName::GpuEnableEndpoint => Some("PT31553_GPU_ENABLE_ENDPOINT"@),
            FieldName::GpuModeReadback => Some("PT31553_GPU_MODE_READBACK"@),
            FieldName::GpuPwmEndpoint => Some("PT31553_GPU_PWM_ENDPOINT"@),
            FieldName::GpuReadbackPwm => Some("PT31553_GPU_READBACK_PWM"@),
            FieldName::GpuRpm => Some("PT31553_GPU_RPM"@),
            FieldName::GpuRpmCommandPwm => Some("PT31553_GPU_RPM_COMMAND_PWM"@),
            FieldName::GpuTachometerEndpoint => Some("PT31553_GPU_TACHOMETER_ENDPOINT"@),
            FieldName::GpuTemperatureCelsius => Some("PT31553_GPU_TEMPERATURE_CELSIUS"@),
            FieldName::GpuWriteSucceeded => Some("PT31553_GPU_WRITE_SUCCEEDED"@),
            FieldName::Message => Some("MESSAGE"@),
            FieldName::Profile => Some("PT31553_PROFILE"@),
            FieldName::Reason => Some("PT31553_REASON"@),
            FieldName::ToState => Some("PT31553_TO_STATE"@),
        }
    }

    pub fn native_name(self) -> (name: Option<&'static str>)
        ensures
            match name {
                Some(name) => self.native_label() == Some(name@),
                None => self.native_label() is None,
            },
    {
        match self {
            FieldName::Attempt => Some("PT31553_ATTEMPT"),
            FieldName::CpuCommandPwm => Some("PT31553_CPU_COMMAND_PWM"),
            FieldName::CpuEnableEndpoint => Some("PT31553_CPU_ENABLE_ENDPOINT"),
            FieldName::CpuModeReadback => Some("PT31553_CPU_MODE_READBACK"),
            FieldName::CpuPwmEndpoint => Some("PT31553_CPU_PWM_ENDPOINT"),
            FieldName::CpuReadbackPwm => Some("PT31553_CPU_READBACK_PWM"),
            FieldName::CpuRpm => Some("PT31553_CPU_RPM"),
            FieldName::CpuRpmCommandPwm => Some("PT31553_CPU_RPM_COMMAND_PWM"),
            FieldName::CpuTachometerEndpoint => Some("PT31553_CPU_TACHOMETER_ENDPOINT"),
            FieldName::CpuTemperatureCelsius => Some("PT31553_CPU_TEMPERATURE_CELSIUS"),
            FieldName::CpuWriteSucceeded => Some("PT31553_CPU_WRITE_SUCCEEDED"),
            FieldName::DemandPercent => Some("PT31553_DEMAND_PERCENT"),
            FieldName::DiagnosticContract => None,
            FieldName::Endpoint => Some("PT31553_ENDPOINT"),
            FieldName::EventId => Some("PT31553_EVENT_ID"),
            FieldName::ExternalPower => Some("PT31553_EXTERNAL_POWER"),
            FieldName::FaultId => Some("PT31553_FAULT_ID"),
            FieldName::FromState => Some("PT31553_FROM_STATE"),
            FieldName::GpuCommandPwm => Some("PT31553_GPU_COMMAND_PWM"),
            FieldName::GpuEnableEndpoint => Some("PT31553_GPU_ENABLE_ENDPOINT"),
            FieldName::GpuModeReadback => Some("PT31553_GPU_MODE_READBACK"),
            FieldName::GpuPwmEndpoint => Some("PT31553_GPU_PWM_ENDPOINT"),
            FieldName::GpuReadbackPwm => Some("PT31553_GPU_READBACK_PWM"),
            FieldName::GpuRpm => Some("PT31553_GPU_RPM"),
            FieldName::GpuRpmCommandPwm => Some("PT31553_GPU_RPM_COMMAND_PWM"),
            FieldName::GpuTachometerEndpoint => Some("PT31553_GPU_TACHOMETER_ENDPOINT"),
            FieldName::GpuTemperatureCelsius => Some("PT31553_GPU_TEMPERATURE_CELSIUS"),
            FieldName::GpuWriteSucceeded => Some("PT31553_GPU_WRITE_SUCCEEDED"),
            FieldName::Message => Some("MESSAGE"),
            FieldName::Profile => Some("PT31553_PROFILE"),
            FieldName::Reason => Some("PT31553_REASON"),
            FieldName::ToState => Some("PT31553_TO_STATE"),
        }
    }

    /// The field with a name.
    pub fn named(name: &str) -> (field: Option<FieldName>)
        ensures
            match field {
                Some(field) => field.label() == name@,
                None => forall|field: FieldName| #[trigger] field.label() != name@,
            },
    {
        if same_text(name, FieldName::Attempt.name()) {
            return Some(FieldName::Attempt);
        }
        if same_text(name, FieldName::CpuCommandPwm.name()) {
            return Some(FieldName::CpuCommandPwm);
        }
        if same_text(name, FieldName::CpuEnableEndpoint.name()) {
            return Some(FieldName::CpuEnableEndpoint);
        }
        if same_text(name, FieldName::CpuModeReadback.name()) {
            return Some(FieldName::CpuModeReadback);
        }
        if same_text(name, FieldName::CpuPwmEndpoint.name()) {
            return Some(FieldName::CpuPwmEndpoint);
        }
        if same_text(name, FieldName::CpuReadbackPwm.name()) {
            return Some(FieldName::CpuReadbackPwm);
        }
        if same_text(name, FieldName::CpuRpm.name()) {
            return Some(FieldName::CpuRpm);
        }
        if same_text(name, FieldName::CpuRpmCommandPwm.name()) {
            return Some(FieldName::CpuRpmCommandPwm);
        }
        if same_text(name, FieldName::CpuTachometerEndpoint.name()) {
            return Some(FieldName::CpuTachometerEndpoint);
        }
        if same_text(name, FieldName::CpuTemperatureCelsius.name()) {
            return Some(FieldName::CpuTemperatureCelsius);
        }
        if same_text(name, FieldName::CpuWriteSucceeded.name()) {
            return Some(FieldName::CpuWriteSucceeded);
        }
        if same_text(name, FieldName::DemandPercent.name()) {
            return Some(FieldName::DemandPercent);
        }
        if same_text(name, FieldName::DiagnosticContract.name()) {
            return Some(FieldName::DiagnosticContract);
        }
        if same_text(name, FieldName::Endpoint.name()) {
            return Some(FieldName::Endpoint);
        }
        if same_text(name, FieldName::EventId.name()) {
            return Some(FieldName::EventId);
        }
        if same_text(name, FieldName::ExternalPower.name()) {
            return Some(FieldName::ExternalPower);
        }
        if same_text(name, FieldName::FaultId.name()) {
            return Some(FieldName::FaultId);
        }
        if same_text(name, FieldName::FromState.name()) {
            return Some(FieldName::FromState);
        }
        if same_text(name, FieldName::GpuCommandPwm.name()) {
            return Some(FieldName::GpuCommandPwm);
        }
        if same_text(name, FieldName::GpuEnableEndpoint.name()) {
            return Some(FieldName::GpuEnableEndpoint);
        }
        if same_text(name, FieldName::GpuModeReadback.name()) {
            return Some(FieldName::GpuModeReadback);
        }
        if same_text(name, FieldName::GpuPwmEndpoint.name()) {
            return Some(FieldName::GpuPwmEndpoint);
        }
        if same_text(name, FieldName::GpuReadbackPwm.name()) {
            return Some(FieldName::GpuReadbackPwm);
        }
        if same_text(name, FieldName::GpuRpm.name()) {
            return Some(FieldName::GpuRpm);
        }
        if same_text(name, FieldName::GpuRpmCommandPwm.name()) {
            return Some(FieldName::GpuRpmCommandPwm);
        }
        if same_text(name, FieldName::GpuTachometerEndpoint.name()) {
            return Some(FieldName::GpuTachometerEndpoint);
        }
        if same_text(name, FieldName::GpuTemperatureCelsius.name()) {
            return Some(FieldName::GpuTemperatureCelsius);
        }
        if same_text(name, FieldName::GpuWriteSucceeded.name()) {
            return Some(FieldName::GpuWriteSucceeded);
        }
        if same_text(name, FieldName::Message.name()) {
            return Some(FieldName::Message);
        }
        if same_text(name, FieldName::Profile.name()) {
            return Some(FieldName::Profile);
        }
        if same_text(name, FieldName::Reason.name()) {
            return Some(FieldName::Reason);
        }
        if same_text(name, FieldName::ToState.name()) {
            return Some(FieldName::ToState);
        }
        None
    }
}

/// Fields stand at different places.
pub proof fn places_tell_fields_apart(first: FieldName, second: FieldName)
    requires
        first.place() == second.place(),
    ensures
        first == second,
{
    reveal(FieldName::place);
}

/// Every field has a place.
pub proof fn places_are_counted(field: FieldName)
    ensures
        field.place() < FIELD_COUNT,
{
    reveal(FieldName::place);
}

/// The fields that an event of a kind carries, besides those that every event carries.
pub open spec fn belongs(kind: EventKind, field: FieldName) -> bool {
    ||| field is DiagnosticContract
    ||| field is EventId
    ||| field is Message
    ||| match kind {
        EventKind::StateTransition => match field {
            FieldName::FromState
            | FieldName::ToState
            | FieldName::Reason => true,
            _ => false,
        },
        EventKind::RuntimeFault => match field {
            FieldName::FaultId
            | FieldName::Endpoint => true,
            _ => false,
        },
        EventKind::ControlCycle => match field {
            FieldName::CpuTemperatureCelsius
            | FieldName::GpuTemperatureCelsius
            | FieldName::ExternalPower
            | FieldName::Profile
            | FieldName::DemandPercent
            | FieldName::CpuPwmEndpoint
            | FieldName::CpuCommandPwm
            | FieldName::CpuReadbackPwm
            | FieldName::CpuTachometerEndpoint
            | FieldName::CpuRpmCommandPwm
            | FieldName::CpuRpm
            | FieldName::GpuPwmEndpoint
            | FieldName::GpuCommandPwm
            | FieldName::GpuReadbackPwm
            | FieldName::GpuTachometerEndpoint
            | FieldName::GpuRpmCommandPwm
            | FieldName::GpuRpm => true,
            _ => false,
        },
        EventKind::RestorationAttempt => match field {
            FieldName::Attempt
            | FieldName::CpuEnableEndpoint
            | FieldName::CpuWriteSucceeded
            | FieldName::CpuModeReadback
            | FieldName::GpuEnableEndpoint
            | FieldName::GpuWriteSucceeded
            | FieldName::GpuModeReadback => true,
            _ => false,
        },
    }
}

/// Whether an event of a kind carries a field.
pub fn field_belongs(kind: EventKind, field: FieldName) -> (yes: bool)
    ensures
        yes == belongs(kind, field),
{
    match field {
        FieldName::DiagnosticContract | FieldName::EventId | FieldName::Message => true,
        _ => match kind {
            EventKind::StateTransition => match field {
                FieldName::FromState
                | FieldName::ToState
                | FieldName::Reason => true,
                _ => false,
            },
            EventKind::RuntimeFault => match field {
                FieldName::FaultId
                | FieldName::Endpoint => true,
                _ => false,
            },
            EventKind::ControlCycle => match field {
                FieldName::CpuTemperatureCelsius
                | FieldName::GpuTemperatureCelsius
                | FieldName::ExternalPower
                | FieldName::Profile
                | FieldName::DemandPercent
                | FieldName::CpuPwmEndpoint
                | FieldName::CpuCommandPwm
                | FieldName::CpuReadbackPwm
                | FieldName::CpuTachometerEndpoint
                | FieldName::CpuRpmCommandPwm
                | FieldName::CpuRpm
                | FieldName::GpuPwmEndpoint
                | FieldName::GpuCommandPwm
                | FieldName::GpuReadbackPwm
                | FieldName::GpuTachometerEndpoint
                | FieldName::GpuRpmCommandPwm
                | FieldName::GpuRpm => true,
                _ => false,
            },
            EventKind::RestorationAttempt => match field {
                FieldName::Attempt
                | FieldName::CpuEnableEndpoint
                | FieldName::CpuWriteSucceeded
                | FieldName::CpuModeReadback
                | FieldName::GpuEnableEndpoint
                | FieldName::GpuWriteSucceeded
                | FieldName::GpuModeReadback => true,
                _ => false,
            },
        },
    }
}

/// A text that agrees with another up to a place and has the lesser character there stands before
/// it.
proof fn lemma_ordered_at(first: Seq<char>, second: Seq<char>, k: int)
    requires
        0 <= k < first.len(),
        k < second.len(),
        forall|i: int| 0 <= i < k ==> first[i] == second[i],
        (first[k] as int) < (second[k] as int),
    ensures
        is_ordered(first, second),
    decreases k,
{
    if k > 0 {
        assert(first[0] == second[0]);
        assert forall|i: int| 0 <= i < k - 1 implies first.skip(1)[i] == second.skip(1)[i] by {
            assert(first[i + 1] == second[i + 1]);
        }
        lemma_ordered_at(first.skip(1), second.skip(1), k - 1);
    }
}

/// A text stands before every text that begins with it.
proof fn lemma_prefix_is_ordered(first: Seq<char>, second: Seq<char>)
    requires
        first.len() <= second.len(),
        forall|i: int| 0 <= i < first.len() ==> first[i] == second[i],
    ensures
        is_ordered(first, second),
    decreases first.len(),
{
    if first.len() > 0 {
        assert(first[0] == second[0]);
        assert forall|i: int| 0 <= i < first.skip(1).len() implies first.skip(1)[i] == second.skip(
            1,
        )[i] by {
            assert(first[i + 1] == second[i + 1]);
        }
        lemma_prefix_is_ordered(first.skip(1), second.skip(1));
    }
}

/// The field that follows another one.
spec fn following(field: FieldName) -> FieldName {
    match field {
        FieldName::Attempt => FieldName::CpuCommandPwm,
        FieldName::CpuCommandPwm => FieldName::CpuEnableEndpoint,
        FieldName::CpuEnableEndpoint => FieldName::CpuModeReadback,
        FieldName::CpuModeReadback => FieldName::CpuPwmEndpoint,
        FieldName::CpuPwmEndpoint => FieldName::CpuReadbackPwm,
        FieldName::CpuReadbackPwm => FieldName::CpuRpm,
        FieldName::CpuRpm => FieldName::CpuRpmCommandPwm,
        FieldName::CpuRpmCommandPwm => FieldName::CpuTachometerEndpoint,
        FieldName::CpuTachometerEndpoint => FieldName::CpuTemperatureCelsius,
        FieldName::CpuTemperatureCelsius => FieldName::CpuWriteSucceeded,
        FieldName::CpuWriteSucceeded => FieldName::DemandPercent,
        FieldName::DemandPercent => FieldName::DiagnosticContract,
        FieldName::DiagnosticContract => FieldName::Endpoint,
        FieldName::Endpoint => FieldName::EventId,
        FieldName::EventId => FieldName::ExternalPower,
        FieldName::ExternalPower => FieldName::FaultId,
        FieldName::FaultId => FieldName::FromState,
        FieldName::FromState => FieldName::GpuCommandPwm,
        FieldName::GpuCommandPwm => FieldName::GpuEnableEndpoint,
        FieldName::GpuEnableEndpoint => FieldName::GpuModeReadback,
        FieldName::GpuModeReadback => FieldName::GpuPwmEndpoint,
        FieldName::GpuPwmEndpoint => FieldName::GpuReadbackPwm,
        FieldName::GpuReadbackPwm => FieldName::GpuRpm,
        FieldName::GpuRpm => FieldName::GpuRpmCommandPwm,
        FieldName::GpuRpmCommandPwm => FieldName::GpuTachometerEndpoint,
        FieldName::GpuTachometerEndpoint => FieldName::GpuTemperatureCelsius,
        FieldName::GpuTemperatureCelsius => FieldName::GpuWriteSucceeded,
        FieldName::GpuWriteSucceeded => FieldName::Message,
        FieldName::Message => FieldName::Profile,
        FieldName::Profile => FieldName::Reason,
        FieldName::Reason => FieldName::ToState,
        FieldName::ToState => FieldName::ToState,
    }
}

proof fn lemma_following(field: FieldName)
    requires
        field.place() + 1 < FIELD_COUNT,
    ensures
        following(field).place() == field.place() + 1,
        is_ordered(field.label(), following(field).label()),
{
    reveal(FieldName::place);
    match field {
        FieldName::Attempt => {
            reveal_strlit("attempt");
            reveal_strlit("cpu_command_pwm");
            lemma_ordered_at("attempt"@, "cpu_command_pwm"@, 0);
        },
        FieldName::CpuCommandPwm => {
            reveal_strlit("cpu_command_pwm");
            reveal_strlit("cpu_enable_endpoint");
            lemma_ordered_at("cpu_command_pwm"@, "cpu_enable_endpoint"@, 4);
        },
        FieldName::CpuEnableEndpoint => {
            reveal_strlit("cpu_enable_endpoint");
            reveal_strlit("cpu_mode_readback");
            lemma_ordered_at("cpu_enable_endpoint"@, "cpu_mode_readback"@, 4);
        },
        FieldName::CpuModeReadback => {
            reveal_strlit("cpu_mode_readback");
            reveal_strlit("cpu_pwm_endpoint");
            lemma_ordered_at("cpu_mode_readback"@, "cpu_pwm_endpoint"@, 4);
        },
        FieldName::CpuPwmEndpoint => {
            reveal_strlit("cpu_pwm_endpoint");
            reveal_strlit("cpu_readback_pwm");
            lemma_ordered_at("cpu_pwm_endpoint"@, "cpu_readback_pwm"@, 4);
        },
        FieldName::CpuReadbackPwm => {
            reveal_strlit("cpu_readback_pwm");
            reveal_strlit("cpu_rpm");
            lemma_ordered_at("cpu_readback_pwm"@, "cpu_rpm"@, 5);
        },
        FieldName::CpuRpm => {
            reveal_strlit("cpu_rpm");
            reveal_strlit("cpu_rpm_command_pwm");
            lemma_prefix_is_ordered("cpu_rpm"@, "cpu_rpm_command_pwm"@);
        },
        FieldName::CpuRpmCommandPwm => {
            reveal_strlit("cpu_rpm_command_pwm");
            reveal_strlit("cpu_tachometer_endpoint");
            lemma_ordered_at("cpu_rpm_command_pwm"@, "cpu_tachometer_endpoint"@, 4);
        },
        FieldName::CpuTachometerEndpoint => {
            reveal_strlit("cpu_tachometer_endpoint");
            reveal_strlit("cpu_temperature_celsius");
            lemma_ordered_at("cpu_tachometer_endpoint"@, "cpu_temperature_celsius"@, 5);
        },
        FieldName::CpuTemperatureCelsius => {
            reveal_strlit("cpu_temperature_celsius");
            reveal_strlit("cpu_write_succeeded");
            lemma_ordered_at("cpu_temperature_celsius"@, "cpu_write_succeeded"@, 4);
        },
        FieldName::CpuWriteSucceeded => {
            reveal_strlit("cpu_write_succeeded");
            reveal_strlit("demand_percent");
            lemma_ordered_at("cpu_write_succeeded"@, "demand_percent"@, 0);
        },
        FieldName::DemandPercent => {
            reveal_strlit("demand_percent");
            reveal_strlit("diagnostic_contract");
            lemma_ordered_at("demand_percent"@, "diagnostic_contract"@, 1);
        },
        FieldName::DiagnosticContract => {
            reveal_strlit("diagnostic_contract");
            reveal_strlit("endpoint");
            lemma_ordered_at("diagnostic_contract"@, "endpoint"@, 0);
        },
        FieldName::Endpoint => {
            reveal_strlit("endpoint");
            reveal_strlit("event_id");
            lemma_ordered_at("endpoint"@, "event_id"@, 1);
        },
        FieldName::EventId => {
            reveal_strlit("event_id");
            reveal_strlit("external_power");
            lemma_ordered_at("event_id"@, "external_power"@, 1);
        },
        FieldName::ExternalPower => {
            reveal_strlit("external_power");
            reveal_strlit("fault_id");
            lemma_ordered_at("external_power"@, "fault_id"@, 0);
        },
        FieldName::FaultId => {
            reveal_strlit("fault_id");
            reveal_strlit("from_state");
            lemma_ordered_at("fault_id"@, "from_state"@, 1);
        },
        FieldName::FromState => {
            reveal_strlit("from_state");
            reveal_strlit("gpu_command_pwm");
            lemma_ordered_at("from_state"@, "gpu_command_pwm"@, 0);
        },
        FieldName::GpuCommandPwm => {
            reveal_strlit("gpu_command_pwm");
            reveal_strlit("gpu_enable_endpoint");
            lemma_ordered_at("gpu_command_pwm"@, "gpu_enable_endpoint"@, 4);
        },
        FieldName::GpuEnableEndpoint => {
            reveal_strlit("gpu_enable_endpoint");
            reveal_strlit("gpu_mode_readback");
            lemma_ordered_at("gpu_enable_endpoint"@, "gpu_mode_readback"@, 4);
        },
        FieldName::GpuModeReadback => {
            reveal_strlit("gpu_mode_readback");
            reveal_strlit("gpu_pwm_endpoint");
            lemma_ordered_at("gpu_mode_readback"@, "gpu_pwm_endpoint"@, 4);
        },
        FieldName::GpuPwmEndpoint => {
            reveal_strlit("gpu_pwm_endpoint");
            reveal_strlit("gpu_readback_pwm");
            lemma_ordered_at("gpu_pwm_endpoint"@, "gpu_readback_pwm"@, 4);
        },
        FieldName::GpuReadbackPwm => {
            reveal_strlit("gpu_readback_pwm");
            reveal_strlit("gpu_rpm");
            lemma_ordered_at("gpu_readback_pwm"@, "gpu_rpm"@, 5);
        },
        FieldName::GpuRpm => {
            reveal_strlit("gpu_rpm");
            reveal_strlit("gpu_rpm_command_pwm");
            lemma_prefix_is_ordered("gpu_rpm"@, "gpu_rpm_command_pwm"@);
        },
        FieldName::GpuRpmCommandPwm => {
            reveal_strlit("gpu_rpm_command_pwm");
            reveal_strlit("gpu_tachometer_endpoint");
            lemma_ordered_at("gpu_rpm_command_pwm"@, "gpu_tachometer_endpoint"@, 4);
        },
        FieldName::GpuTachometerEndpoint => {
            reveal_strlit("gpu_tachometer_endpoint");
            reveal_strlit("gpu_temperature_celsius");
            lemma_ordered_at("gpu_tachometer_endpoint"@, "gpu_temperature_celsius"@, 5);
        },
        FieldName::GpuTemperatureCelsius => {
            reveal_strlit("gpu_temperature_celsius");
            reveal_strlit("gpu_write_succeeded");
            lemma_ordered_at("gpu_temperature_celsius"@, "gpu_write_succeeded"@, 4);
        },
        FieldName::GpuWriteSucceeded => {
            reveal_strlit("gpu_write_succeeded");
            reveal_strlit("message");
            lemma_ordered_at("gpu_write_succeeded"@, "message"@, 0);
        },
        FieldName::Message => {
            reveal_strlit("message");
            reveal_strlit("profile");
            lemma_ordered_at("message"@, "profile"@, 0);
        },
        FieldName::Profile => {
            reveal_strlit("profile");
            reveal_strlit("reason");
            lemma_ordered_at("profile"@, "reason"@, 0);
        },
        FieldName::Reason => {
            reveal_strlit("reason");
            reveal_strlit("to_state");
            lemma_ordered_at("reason"@, "to_state"@, 0);
        },
        FieldName::ToState => {},
    }
}

/// Fields stand in the order of their names.
pub proof fn places_follow_names(first: FieldName, second: FieldName)
    requires
        first.place() < second.place(),
    ensures
        is_ordered(first.label(), second.label()),
    decreases second.place() - first.place(),
{
    places_are_counted(second);
    lemma_following(first);
    if first.place() + 1 == second.place() {
        places_tell_fields_apart(following(first), second);
    } else {
        places_follow_names(following(first), second);
        order_is_transitive(first.label(), following(first).label(), second.label());
    }
}

} // verus!
