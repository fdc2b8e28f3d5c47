//! The closed vocabulary of runtime events.

use vstd::prelude::*;
use vstd::string::*;
use vstd::utf8::is_ascii_chars;
use crate::text::same_text;

verus! {

broadcast use vstd::string::group_string_axioms;

pub const STATE_TRANSITION_EVENT_ID: &'static str = "pt31553.state-transition.v1";

pub const RUNTIME_FAULT_EVENT_ID: &'static str = "pt31553.runtime-fault.v1";

pub const CONTROL_CYCLE_EVENT_ID: &'static str = "pt31553.control-cycle.v1";

pub const RESTORATION_ATTEMPT_EVENT_ID: &'static str = "pt31553.restoration-attempt.v1";

/// The marker that every event of this vocabulary carries.
pub const DIAGNOSTIC_CONTRACT_MARKER: &'static str = "pt31553.typed-runtime-diagnostics.v1";

/// Whether a text is short, ASCII, and neither starts nor ends with a quotation mark.
pub open spec fn is_plain(text: Seq<char>) -> bool {
    &&& 0 < text.len() <= 64
    &&& text[0] != '"'
    &&& text.last() != '"'
    &&& is_ascii_chars(text)
}

/// A state of the controller.
#[derive(Debug, Clone, Copy, PartialEq, Eq, Structural)]
pub enum RuntimeState {
    Unqualified,
    FirmwareAuto,
    Arming,
    CustomControl,
    Restoring,
    EmergencyContainment,
    FaultLatched,
}

impl RuntimeState {
    /// The text of the id.
    pub open spec fn label(self) -> Seq<char> {
        match self {
            RuntimeState::Unqualified => "unqualified"@,
            RuntimeState::FirmwareAuto => "firmware-auto"@,
            RuntimeState::Arming => "arming"@,
            RuntimeState::CustomControl => "custom-control"@,
            RuntimeState::Restoring => "restoring"@,
            RuntimeState::EmergencyContainment => "emergency-containment"@,
            RuntimeState::FaultLatched => "fault-latched"@,
        }
    }

    pub fn id(self) -> (id: &'static str)
        ensures
            id@ == self.label(),
    {
        match self {
            RuntimeState::Unqualified => "unqualified",
            RuntimeState::FirmwareAuto => "firmware-auto",
            RuntimeState::Arming => "arming",
            RuntimeState::CustomControl => "custom-control",
            RuntimeState::Restoring => "restoring",
            RuntimeState::EmergencyContainment => "emergency-containment",
            RuntimeState::FaultLatched => "fault-latched",
        }
    }

    /// The id is short plain text.
    pub(crate) proof fn lemma_is_plain(self)
        ensures
            is_plain(self.label()),
    {
        match self {
            RuntimeState::Unqualified => reveal_strlit("unqualified"),
            RuntimeState::FirmwareAuto => reveal_strlit("firmware-auto"),
            RuntimeState::Arming => reveal_strlit("arming"),
            RuntimeState::CustomControl => reveal_strlit("custom-control"),
            RuntimeState::Restoring => reveal_strlit("restoring"),
            RuntimeState::EmergencyContainment => reveal_strlit("emergency-containment"),
            RuntimeState::FaultLatched => reveal_strlit("fault-latched"),
        }
    }

    /// Whether a text is one of the ids.
    pub open spec fn is_id(text: Seq<char>) -> bool {
        exists|value: RuntimeState| #[trigger] value.label() == text
    }

    pub(crate) fn knows(text: &str) -> (known: bool)
        ensures
            known == RuntimeState::is_id(text@),
    {
        if same_text(text, RuntimeState::Unqualified.id()) {
            assert(RuntimeState::Unqualified.label() == text@);
            return true;
        }
        if same_text(text, RuntimeState::FirmwareAuto.id()) {
            assert(RuntimeState::FirmwareAuto.label() == text@);
            return true;
        }
        if same_text(text, RuntimeState::Arming.id()) {
            assert(RuntimeState::Arming.label() == text@);
            return true;
        }
        if same_text(text, RuntimeState::CustomControl.id()) {
            assert(RuntimeState::CustomControl.label() == text@);
            return true;
        }
        if same_text(text, RuntimeState::Restoring.id()) {
            assert(RuntimeState::Restoring.label() == text@);
            return true;
        }
        if same_text(text, RuntimeState::EmergencyContainment.id()) {
            assert(RuntimeState::EmergencyContainment.label() == text@);
            return true;
        }
        if same_text(text, RuntimeState::FaultLatched.id()) {
            assert(RuntimeState::FaultLatched.label() == text@);
            return true;
        }
        false
    }
}

/// Why the controller changed its state.
#[derive(Debug, Clone, Copy, PartialEq, Eq, Structural)]
pub enum RuntimeTransition {
    TwoFreshSamples,
    ArmingConfirmed,
    SensorFault,
    ControlFault,
    RestorationConfirmed,
    RestorationFailed,
    ContainmentActivated,
    RearmRequested,
    Shutdown,
}

impl RuntimeTransition {
    /// The text of the id.
    pub open spec fn label(self) -> Seq<char> {
        match self {
            RuntimeTransition::TwoFreshSamples => "two-fresh-samples"@,
            RuntimeTransition::ArmingConfirmed => "arming-confirmed"@,
            RuntimeTransition::SensorFault => "sensor-fault"@,
            RuntimeTransition::ControlFault => "control-fault"@,
            RuntimeTransition::RestorationConfirmed => "restoration-confirmed"@,
            RuntimeTransition::RestorationFailed => "restoration-failed"@,
            RuntimeTransition::ContainmentActivated => "containment-activated"@,
            RuntimeTransition::RearmRequested => "rearm-requested"@,
            RuntimeTransition::Shutdown => "shutdown"@,
        }
    }

    pub fn id(self) -> (id: &'static str)
        ensures
            id@ == self.label(),
    {
        match self {
            RuntimeTransition::TwoFreshSamples => "two-fresh-samples",
            RuntimeTransition::ArmingConfirmed => "arming-confirmed",
            RuntimeTransition::SensorFault => "sensor-fault",
            RuntimeTransition::ControlFault => "control-fault",
            RuntimeTransition::RestorationConfirmed => "restoration-confirmed",
            RuntimeTransition::RestorationFailed => "restoration-failed",
            RuntimeTransition::ContainmentActivated => "containment-activated",
            RuntimeTransition::RearmRequested => "rearm-requested",
            RuntimeTransition::Shutdown => "shutdown",
        }
    }

    /// The id is short plain text.
    pub(crate) proof fn lemma_is_plain(self)
        ensures
            is_plain(self.label()),
    {
        match self {
            RuntimeTransition::TwoFreshSamples => reveal_strlit("two-fresh-samples"),
            RuntimeTransition::ArmingConfirmed => reveal_strlit("arming-confirmed"),
            RuntimeTransition::SensorFault => reveal_strlit("sensor-fault"),
            RuntimeTransition::ControlFault => reveal_strlit("control-fault"),
            RuntimeTransition::RestorationConfirmed => reveal_strlit("restoration-confirmed"),
            RuntimeTransition::RestorationFailed => reveal_strlit("restoration-failed"),
            RuntimeTransition::ContainmentActivated => reveal_strlit("containment-activated"),
            RuntimeTransition::RearmRequested => reveal_strlit("rearm-requested"),
            RuntimeTransition::Shutdown => reveal_strlit("shutdown"),
        }
    }

    /// Whether a text is one of the ids.
    pub open spec fn is_id(text: Seq<char>) -> bool {
        exists|value: RuntimeTransition| #[trigger] value.label() == text
    }

    pub(crate) fn knows(text: &str) -> (known: bool)
        ensures
            known == RuntimeTransition::is_id(text@),
    {
        if same_text(text, RuntimeTransition::TwoFreshSamples.id()) {
            assert(RuntimeTransition::TwoFreshSamples.label() == text@);
            return true;
        }
        if same_text(text, RuntimeTransition::ArmingConfirmed.id()) {
            assert(RuntimeTransition::ArmingConfirmed.label() == text@);
            return true;
        }
        if same_text(text, RuntimeTransition::SensorFault.id()) {
            assert(RuntimeTransition::SensorFault.label() == text@);
            return true;
        }
        if same_text(text, RuntimeTransition::ControlFault.id()) {
            assert(RuntimeTransition::ControlFault.label() == text@);
            return true;
        }
        if same_text(text, RuntimeTransition::RestorationConfirmed.id()) {
            assert(RuntimeTransition::RestorationConfirmed.label() == text@);
            return true;
        }
        if same_text(text, RuntimeTransition::RestorationFailed.id()) {
            assert(RuntimeTransition::RestorationFailed.label() == text@);
            return true;
        }
        if same_text(text, RuntimeTransition::ContainmentActivated.id()) {
            assert(RuntimeTransition::ContainmentActivated.label() == text@);
            return true;
        }
        if same_text(text, RuntimeTransition::RearmRequested.id()) {
            assert(RuntimeTransition::RearmRequested.label() == text@);
            return true;
        }
        if same_text(text, RuntimeTransition::Shutdown.id()) {
            assert(RuntimeTransition::Shutdown.label() == text@);
            return true;
        }
        false
    }
}

/// A sensor or a fan endpoint.
#[derive(Debug, Clone, Copy, PartialEq, Eq, Structural)]
pub enum RuntimeEndpoint {
    CpuTemperature,
    GpuTemperature,
    ExternalPower,
    CpuPwm,
    CpuEnable,
    CpuTachometer,
    GpuPwm,
    GpuEnable,
    GpuTachometer,
}

impl RuntimeEndpoint {
    /// The text of the id.
    pub open spec fn label(self) -> Seq<char> {
        match self {
            RuntimeEndpoint::CpuTemperature => "sensor:cpu:temperature"@,
            RuntimeEndpoint::GpuTemperature => "sensor:gpu:temperature"@,
            RuntimeEndpoint::ExternalPower => "power:external"@,
            RuntimeEndpoint::CpuPwm => "acer:cpu:pwm1"@,
            RuntimeEndpoint::CpuEnable => "acer:cpu:pwm1_enable"@,
            RuntimeEndpoint::CpuTachometer => "acer:cpu:fan1_input"@,
            RuntimeEndpoint::GpuPwm => "acer:gpu:pwm2"@,
            RuntimeEndpoint::GpuEnable => "acer:gpu:pwm2_enable"@,
            RuntimeEndpoint::GpuTachometer => "acer:gpu:fan2_input"@,
        }
    }

    pub fn id(self) -> (id: &'static str)
        ensures
            id@ == self.label(),
    {
        match self {
            RuntimeEndpoint::CpuTemperature => "sensor:cpu:temperature",
            RuntimeEndpoint::GpuTemperature => "sensor:gpu:temperature",
            RuntimeEndpoint::ExternalPower => "power:external",
            RuntimeEndpoint::CpuPwm => "acer:cpu:pwm1",
            RuntimeEndpoint::CpuEnable => "acer:cpu:pwm1_enable",
            RuntimeEndpoint::CpuTachometer => "acer:cpu:fan1_input",
            RuntimeEndpoint::GpuPwm => "acer:gpu:pwm2",
            RuntimeEndpoint::GpuEnable => "acer:gpu:pwm2_enable",
            RuntimeEndpoint::GpuTachometer => "acer:gpu:fan2_input",
        }
    }

    /// The id is short plain text.
    pub(crate) proof fn lemma_is_plain(self)
        ensures
            is_plain(self.label()),
    {
        match self {
            RuntimeEndpoint::CpuTemperature => reveal_strlit("sensor:cpu:temperature"),
            RuntimeEndpoint::GpuTemperature => reveal_strlit("sensor:gpu:temperature"),
            RuntimeEndpoint::ExternalPower => reveal_strlit("power:external"),
            RuntimeEndpoint::CpuPwm => reveal_strlit("acer:cpu:pwm1"),
            RuntimeEndpoint::CpuEnable => reveal_strlit("acer:cpu:pwm1_enable"),
            RuntimeEndpoint::CpuTachometer => reveal_strlit("acer:cpu:fan1_input"),
            RuntimeEndpoint::GpuPwm => reveal_strlit("acer:gpu:pwm2"),
            RuntimeEndpoint::GpuEnable => reveal_strlit("acer:gpu:pwm2_enable"),
            RuntimeEndpoint::GpuTachometer => reveal_strlit("acer:gpu:fan2_input"),
        }
    }

    /// Whether a text is one of the ids.
    pub open spec fn is_id(text: Seq<char>) -> bool {
        exists|value: RuntimeEndpoint| #[trigger] value.label() == text
    }

    pub(crate) fn knows(text: &str) -> (known: bool)
        ensures
            known == RuntimeEndpoint::is_id(text@),
    {
        if same_text(text, RuntimeEndpoint::CpuTemperature.id()) {
            assert(RuntimeEndpoint::CpuTemperature.label() == text@);
            return true;
        }
        if same_text(text, RuntimeEndpoint::GpuTemperature.id()) {
            assert(RuntimeEndpoint::GpuTemperature.label() == text@);
            return true;
        }
        if same_text(text, RuntimeEndpoint::ExternalPower.id()) {
            assert(RuntimeEndpoint::ExternalPower.label() == text@);
            return true;
        }
        if same_text(text, RuntimeEndpoint::CpuPwm.id()) {
            assert(RuntimeEndpoint::CpuPwm.label() == text@);
            return true;
        }
        if same_text(text, RuntimeEndpoint::CpuEnable.id()) {
            assert(RuntimeEndpoint::CpuEnable.label() == text@);
            return true;
        }
        if same_text(text, RuntimeEndpoint::CpuTachometer.id()) {
            assert(RuntimeEndpoint::CpuTachometer.label() == text@);
            return true;
        }
        if same_text(text, RuntimeEndpoint::GpuPwm.id()) {
            assert(RuntimeEndpoint::GpuPwm.label() == text@);
            return true;
        }
        if same_text(text, RuntimeEndpoint::GpuEnable.id()) {
            assert(RuntimeEndpoint::GpuEnable.label() == text@);
            return true;
        }
        if same_text(text, RuntimeEndpoint::GpuTachometer.id()) {
            assert(RuntimeEndpoint::GpuTachometer.label() == text@);
            return true;
        }
        false
    }
}

/// A fault of the controller.
#[derive(Debug, Clone, Copy, PartialEq, Eq, Structural)]
pub enum RuntimeFault {
    OwnershipDenied,
    ConfigurationRejected,
    FirmwareAutoUnconfirmed,
    SensorUnavailable,
    SensorStale,
    SensorFromFuture,
    SensorLate,
    CadenceMissed,
    DeviceChanged,
    PlatformOperation,
    UnexpectedReadback,
    TachometerMalformed,
    TachometerOutOfBand,
    DeadlineExceeded,
    ShutdownRequested,
    ArmingRejected,
    RestorationUnconfirmed,
    ContainmentUnconfirmed,
}

impl RuntimeFault {
    /// The text of the id.
    pub open spec fn label(self) -> Seq<char> {
        match self {
            RuntimeFault::OwnershipDenied => "ownership-denied"@,
            RuntimeFault::ConfigurationRejected => "configuration-rejected"@,
            RuntimeFault::FirmwareAutoUnconfirmed => "firmware-auto-unconfirmed"@,
            RuntimeFault::SensorUnavailable => "sensor-unavailable"@,
            RuntimeFault::SensorStale => "sensor-stale"@,
            RuntimeFault::SensorFromFuture => "sensor-from-future"@,
            RuntimeFault::SensorLate => "sensor-late"@,
            RuntimeFault::CadenceMissed => "sample-cadence-missed"@,
            RuntimeFault::DeviceChanged => "device-changed"@,
            RuntimeFault::PlatformOperation => "platform-operation-failed"@,
            RuntimeFault::UnexpectedReadback => "unexpected-readback"@,
            RuntimeFault::TachometerMalformed => "tachometer-malformed"@,
            RuntimeFault::TachometerOutOfBand => "tachometer-out-of-band"@,
            RuntimeFault::DeadlineExceeded => "deadline-exceeded"@,
            RuntimeFault::ShutdownRequested => "shutdown-requested"@,
            RuntimeFault::ArmingRejected => "arming-rejected"@,
            RuntimeFault::RestorationUnconfirmed => "restoration-unconfirmed"@,
            RuntimeFault::ContainmentUnconfirmed => "containment-unconfirmed"@,
        }
    }

    pub fn id(self) -> (id: &'static str)
        ensures
            id@ == self.label(),
    {
        match self {
            RuntimeFault::OwnershipDenied => "ownership-denied",
            RuntimeFault::ConfigurationRejected => "configuration-rejected",
            RuntimeFault::FirmwareAutoUnconfirmed => "firmware-auto-unconfirmed",
            RuntimeFault::SensorUnavailable => "sensor-unavailable",
            RuntimeFault::SensorStale => "sensor-stale",
            RuntimeFault::SensorFromFuture => "sensor-from-future",
            RuntimeFault::SensorLate => "sensor-late",
            RuntimeFault::CadenceMissed => "sample-cadence-missed",
            RuntimeFault::DeviceChanged => "device-changed",
            RuntimeFault::PlatformOperation => "platform-operation-failed",
            RuntimeFault::UnexpectedReadback => "unexpected-readback",
            RuntimeFault::TachometerMalformed => "tachometer-malformed",
            RuntimeFault::TachometerOutOfBand => "tachometer-out-of-band",
            RuntimeFault::DeadlineExceeded => "deadline-exceeded",
            RuntimeFault::ShutdownRequested => "shutdown-requested",
            RuntimeFault::ArmingRejected => "arming-rejected",
            RuntimeFault::RestorationUnconfirmed => "restoration-unconfirmed",
            RuntimeFault::ContainmentUnconfirmed => "containment-unconfirmed",
        }
    }

    /// The id is short plain text.
    pub(crate) proof fn lemma_is_plain(self)
        ensures
            is_plain(self.label()),
    {
        match self {
            RuntimeFault::OwnershipDenied => reveal_strlit("ownership-denied"),
            RuntimeFault::ConfigurationRejected => reveal_strlit("configuration-rejected"),
            RuntimeFault::FirmwareAutoUnconfirmed => reveal_strlit("firmware-auto-unconfirmed"),
            RuntimeFault::SensorUnavailable => reveal_strlit("sensor-unavailable"),
            RuntimeFault::SensorStale => reveal_strlit("sensor-stale"),
            RuntimeFault::SensorFromFuture => reveal_strlit("sensor-from-future"),
            RuntimeFault::SensorLate => reveal_strlit("sensor-late"),
            RuntimeFault::CadenceMissed => reveal_strlit("sample-cadence-missed"),
            RuntimeFault::DeviceChanged => reveal_strlit("device-changed"),
            RuntimeFault::PlatformOperation => reveal_strlit("platform-operation-failed"),
            RuntimeFault::UnexpectedReadback => reveal_strlit("unexpected-readback"),
            RuntimeFault::TachometerMalformed => reveal_strlit("tachometer-malformed"),
            RuntimeFault::TachometerOutOfBand => reveal_strlit("tachometer-out-of-band"),
            RuntimeFault::DeadlineExceeded => reveal_strlit("deadline-exceeded"),
            RuntimeFault::ShutdownRequested => reveal_strlit("shutdown-requested"),
            RuntimeFault::ArmingRejected => reveal_strlit("arming-rejected"),
            RuntimeFault::RestorationUnconfirmed => reveal_strlit("restoration-unconfirmed"),
            RuntimeFault::ContainmentUnconfirmed => reveal_strlit("containment-unconfirmed"),
        }
    }

    /// Whether a text is one of the ids.
    pub open spec fn is_id(text: Seq<char>) -> bool {
        exists|value: RuntimeFault| #[trigger] value.label() == text
    }

    pub(crate) fn knows(text: &str) -> (known: bool)
        ensures
            known == RuntimeFault::is_id(text@),
    {
        if same_text(text, RuntimeFault::OwnershipDenied.id()) {
            assert(RuntimeFault::OwnershipDenied.label() == text@);
            return true;
        }
        if same_text(text, RuntimeFault::ConfigurationRejected.id()) {
            assert(RuntimeFault::ConfigurationRejected.label() == text@);
            return true;
        }
        if same_text(text, RuntimeFault::FirmwareAutoUnconfirmed.id()) {
            assert(RuntimeFault::FirmwareAutoUnconfirmed.label() == text@);
            return true;
        }
        if same_text(text, RuntimeFault::SensorUnavailable.id()) {
            assert(RuntimeFault::SensorUnavailable.label() == text@);
            return true;
        }
        if same_text(text, RuntimeFault::SensorStale.id()) {
            assert(RuntimeFault::SensorStale.label() == text@);
            return true;
        }
        if same_text(text, RuntimeFault::SensorFromFuture.id()) {
            assert(RuntimeFault::SensorFromFuture.label() == text@);
            return true;
        }
        if same_text(text, RuntimeFault::SensorLate.id()) {
            assert(RuntimeFault::SensorLate.label() == text@);
            return true;
        }
        if same_text(text, RuntimeFault::CadenceMissed.id()) {
            assert(RuntimeFault::CadenceMissed.label() == text@);
            return true;
        }
        if same_text(text, RuntimeFault::DeviceChanged.id()) {
            assert(RuntimeFault::DeviceChanged.label() == text@);
            return true;
        }
        if same_text(text, RuntimeFault::PlatformOperation.id()) {
            assert(RuntimeFault::PlatformOperation.label() == text@);
            return true;
        }
        if same_text(text, RuntimeFault::UnexpectedReadback.id()) {
            assert(RuntimeFault::UnexpectedReadback.label() == text@);
            return true;
        }
        if same_text(text, RuntimeFault::TachometerMalformed.id()) {
            assert(RuntimeFault::TachometerMalformed.label() == text@);
            return true;
        }
        if same_text(text, RuntimeFault::TachometerOutOfBand.id()) {
            assert(RuntimeFault::TachometerOutOfBand.label() == text@);
            return true;
        }
        if same_text(text, RuntimeFault::DeadlineExceeded.id()) {
            assert(RuntimeFault::DeadlineExceeded.label() == text@);
            return true;
        }
        if same_text(text, RuntimeFault::ShutdownRequested.id()) {
            assert(RuntimeFault::ShutdownRequested.label() == text@);
            return true;
        }
        if same_text(text, RuntimeFault::ArmingRejected.id()) {
            assert(RuntimeFault::ArmingRejected.label() == text@);
            return true;
        }
        if same_text(text, RuntimeFault::RestorationUnconfirmed.id()) {
            assert(RuntimeFault::RestorationUnconfirmed.label() == text@);
            return true;
        }
        if same_text(text, RuntimeFault::ContainmentUnconfirmed.id()) {
            assert(RuntimeFault::ContainmentUnconfirmed.label() == text@);
            return true;
        }
        false
    }
}

/// The mode that was read back after a restoration attempt.
#[derive(Debug, Clone, Copy, PartialEq, Eq, Structural)]
pub enum RestorationReadback {
    FirmwareAuto,
    Custom,
    Other,
    Unreadable,
}

impl RestorationReadback {
    /// The text of the id.
    pub open spec fn label(self) -> Seq<char> {
        match self {
            RestorationReadback::FirmwareAuto => "firmware-auto"@,
            RestorationReadback::Custom => "custom"@,
            RestorationReadback::Other => "other"@,
            RestorationReadback::Unreadable => "unreadable"@,
        }
    }

    pub fn id(self) -> (id: &'static str)
        ensures
            id@ == self.label(),
    {
        match self {
            RestorationReadback::FirmwareAuto => "firmware-auto",
            RestorationReadback::Custom => "custom",
            RestorationReadback::Other => "other",
            RestorationReadback::Unreadable => "unreadable",
        }
    }

    /// The id is short plain text.
    pub(crate) proof fn lemma_is_plain(self)
        ensures
            is_plain(self.label()),
    {
        match self {
            RestorationReadback::FirmwareAuto => reveal_strlit("firmware-auto"),
            RestorationReadback::Custom => reveal_strlit("custom"),
            RestorationReadback::Other => reveal_strlit("other"),
            RestorationReadback::Unreadable => reveal_strlit("unreadable"),
        }
    }

    /// Whether a text is one of the ids.
    pub open spec fn is_id(text: Seq<char>) -> bool {
        exists|value: RestorationReadback| #[trigger] value.label() == text
    }

    pub(crate) fn knows(text: &str) -> (known: bool)
        ensures
            known == RestorationReadback::is_id(text@),
    {
        if same_text(text, RestorationReadback::FirmwareAuto.id()) {
            assert(RestorationReadback::FirmwareAuto.label() == text@);
            return true;
        }
        if same_text(text, RestorationReadback::Custom.id()) {
            assert(RestorationReadback::Custom.label() == text@);
            return true;
        }
        if same_text(text, RestorationReadback::Other.id()) {
            assert(RestorationReadback::Other.label() == text@);
            return true;
        }
        if same_text(text, RestorationReadback::Unreadable.id()) {
            assert(RestorationReadback::Unreadable.label() == text@);
            return true;
        }
        false
    }
}

/// The kinds of events.
#[derive(Debug, Clone, Copy, PartialEq, Eq, Structural)]
pub enum EventKind {
    StateTransition,
    RuntimeFault,
    ControlCycle,
    RestorationAttempt,
}

impl EventKind {
    /// The text of the id.
    pub open spec fn label(self) -> Seq<char> {
        match self {
            EventKind::StateTransition => "pt31553.state-transition.v1"@,
            EventKind::RuntimeFault => "pt31553.runtime-fault.v1"@,
            EventKind::ControlCycle => "pt31553.control-cycle.v1"@,
            EventKind::RestorationAttempt => "pt31553.restoration-attempt.v1"@,
        }
    }

    pub fn id(self) -> (id: &'static str)
        ensures
            id@ == self.label(),
    {
        match self {
            EventKind::StateTransition => "pt31553.state-transition.v1",
            EventKind::RuntimeFault => "pt31553.runtime-fault.v1",
            EventKind::ControlCycle => "pt31553.control-cycle.v1",
            EventKind::RestorationAttempt => "pt31553.restoration-attempt.v1",
        }
    }

    /// The id is short plain text.
    pub(crate) proof fn lemma_is_plain(self)
        ensures
            is_plain(self.label()),
    {
        match self {
            EventKind::StateTransition => reveal_strlit("pt31553.state-transition.v1"),
            EventKind::RuntimeFault => reveal_strlit("pt31553.runtime-fault.v1"),
            EventKind::ControlCycle => reveal_strlit("pt31553.control-cycle.v1"),
            EventKind::RestorationAttempt => reveal_strlit("pt31553.restoration-attempt.v1"),
        }
    }

    /// Whether a text is one of the ids.
    pub open spec fn is_id(text: Seq<char>) -> bool {
        exists|value: EventKind| #[trigger] value.label() == text
    }

    pub(crate) fn knows(text: &str) -> (known: bool)
        ensures
            known == EventKind::is_id(text@),
    {
        if same_text(text, EventKind::StateTransition.id()) {
            assert(EventKind::StateTransition.label() == text@);
            return true;
        }
        if same_text(text, EventKind::RuntimeFault.id()) {
            assert(EventKind::RuntimeFault.label() == text@);
            return true;
        }
        if same_text(text, EventKind::ControlCycle.id()) {
            assert(EventKind::ControlCycle.label() == text@);
            return true;
        }
        if same_text(text, EventKind::RestorationAttempt.id()) {
            assert(EventKind::RestorationAttempt.label() == text@);
            return true;
        }
        false
    }
}

} // verus!
