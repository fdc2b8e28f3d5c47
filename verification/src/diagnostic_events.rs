//! The events that the controller emits.

use vstd::prelude::*;
use vstd::string::*;
use vstd::utf8::*;
use crate::demand::Pwm;
use crate::diagnostic_fields::FieldName;
use crate::diagnostic_ids::{
    is_plain, EventKind, RestorationReadback, RuntimeEndpoint, RuntimeFault, RuntimeState,
    RuntimeTransition, DIAGNOSTIC_CONTRACT_MARKER,
};
use crate::diagnostics::{
    all_short, cycle_fans_are_valid, is_event_of, is_typed_contract_event, unquoted, value_in,
    CycleNumbers, DiagnosticFields, FieldModel,
};
use crate::external_power::ExternalPower;
use crate::text::{
    decimal, decimal_text, decimal_text_reads_back, lemma_decimal_is_short, unsigned_number,
};

verus! {

broadcast use vstd::string::group_string_axioms;

/// The duty and the speed of a fan in a control cycle.
#[derive(Debug, Clone, Copy, PartialEq, Eq, Structural)]
pub struct FanDiagnostic {
    pub command: Pwm,
    pub readback: Pwm,
    pub rpm_command: Pwm,
    pub rpm: u32,
}

/// A completed control cycle. Decimal fractions are given as they are shown.
#[derive(Debug, Clone, Copy, PartialEq)]
pub struct ControlCycleDiagnostic<'a> {
    pub cpu_temperature: &'a str,
    pub gpu_temperature: &'a str,
    pub external_power: ExternalPower,
    pub demand: &'a str,
    pub cpu: FanDiagnostic,
    pub gpu: FanDiagnostic,
}

#[derive(Debug, Clone, Copy, PartialEq, Eq, Structural)]
pub struct RestorationFanDiagnostic {
    pub write_succeeded: bool,
    pub readback: RestorationReadback,
}

#[derive(Debug, Clone, Copy, PartialEq, Eq, Structural)]
pub struct RestorationAttemptDiagnostic {
    pub attempt: u8,
    pub cpu: RestorationFanDiagnostic,
    pub gpu: RestorationFanDiagnostic,
}

/// The values that every event of a kind carries.
pub open spec fn common_value(kind: EventKind, field: FieldName) -> Option<Seq<char>> {
    match field {
        FieldName::DiagnosticContract => Some("pt31553.typed-runtime-diagnostics.v1"@),
        FieldName::EventId => Some(kind.label()),
        FieldName::Message => Some(kind.message_text()),
        _ => None,
    }
}

/// The values of a state transition.
pub open spec fn transition_value(
    from: RuntimeState,
    to: RuntimeState,
    reason: RuntimeTransition,
    field: FieldName,
) -> Option<Seq<char>> {
    match field {
        FieldName::FromState => Some(from.label()),
        FieldName::ToState => Some(to.label()),
        FieldName::Reason => Some(reason.label()),
        _ => common_value(EventKind::StateTransition, field),
    }
}

/// The values of a fault.
pub open spec fn fault_value(
    fault: RuntimeFault,
    endpoint: Option<RuntimeEndpoint>,
    field: FieldName,
) -> Option<Seq<char>> {
    match field {
        FieldName::FaultId => Some(fault.label()),
        FieldName::Endpoint => Some(
            match endpoint {
                Some(endpoint) => endpoint.label(),
                None => "none"@,
            },
        ),
        _ => common_value(EventKind::RuntimeFault, field),
    }
}

/// How external power is told.
pub open spec fn power_text(power: ExternalPower) -> Seq<char> {
    match power {
        ExternalPower::Connected => "connected"@,
        ExternalPower::Disconnected => "disconnected"@,
        ExternalPower::Unknown => "unknown"@,
    }
}

/// The profile that external power selects: battery only where it is known to be disconnected.
pub open spec fn profile_text(power: ExternalPower) -> Seq<char> {
    match power {
        ExternalPower::Disconnected => "battery"@,
        _ => "ac"@,
    }
}

/// The values of a completed control cycle.
pub open spec fn cycle_value(event: ControlCycleDiagnostic, field: FieldName) -> Option<
    Seq<char>,
> {
    match field {
        FieldName::CpuTemperatureCelsius => Some(event.cpu_temperature@),
        FieldName::GpuTemperatureCelsius => Some(event.gpu_temperature@),
        FieldName::ExternalPower => Some(power_text(event.external_power)),
        FieldName::Profile => Some(profile_text(event.external_power)),
        FieldName::DemandPercent => Some(event.demand@),
        FieldName::CpuPwmEndpoint => Some(RuntimeEndpoint::CpuPwm.label()),
        FieldName::CpuCommandPwm => Some(decimal_text(event.cpu.command.duty() as nat)),
        FieldName::CpuReadbackPwm => Some(decimal_text(event.cpu.readback.duty() as nat)),
        FieldName::CpuTachometerEndpoint => Some(RuntimeEndpoint::CpuTachometer.label()),
        FieldName::CpuRpmCommandPwm => Some(decimal_text(event.cpu.rpm_command.duty() as nat)),
        FieldName::CpuRpm => Some(decimal_text(event.cpu.rpm as nat)),
        FieldName::GpuPwmEndpoint => Some(RuntimeEndpoint::GpuPwm.label()),
        FieldName::GpuCommandPwm => Some(decimal_text(event.gpu.command.duty() as nat)),
        FieldName::GpuReadbackPwm => Some(decimal_text(event.gpu.readback.duty() as nat)),
        FieldName::GpuTachometerEndpoint => Some(RuntimeEndpoint::GpuTachometer.label()),
        FieldName::GpuRpmCommandPwm => Some(decimal_text(event.gpu.rpm_command.duty() as nat)),
        FieldName::GpuRpm => Some(decimal_text(event.gpu.rpm as nat)),
        _ => common_value(EventKind::ControlCycle, field),
    }
}

/// How a truth value is told.
pub open spec fn truth_text(value: bool) -> Seq<char> {
    if value {
        "true"@
    } else {
        "false"@
    }
}

/// The values of a restoration attempt.
pub open spec fn restoration_value(event: RestorationAttemptDiagnostic, field: FieldName) -> Option<
    Seq<char>,
> {
    match field {
        FieldName::Attempt => Some(decimal_text(event.attempt as nat)),
        FieldName::CpuEnableEndpoint => Some(RuntimeEndpoint::CpuEnable.label()),
        FieldName::CpuWriteSucceeded => Some(truth_text(event.cpu.write_succeeded)),
        FieldName::CpuModeReadback => Some(event.cpu.readback.label()),
        FieldName::GpuEnableEndpoint => Some(RuntimeEndpoint::GpuEnable.label()),
        FieldName::GpuWriteSucceeded => Some(truth_text(event.gpu.write_succeeded)),
        FieldName::GpuModeReadback => Some(event.gpu.readback.label()),
        _ => common_value(EventKind::RestorationAttempt, field),
    }
}

fn common_fields(kind: EventKind) -> (fields: DiagnosticFields)
    ensures
        forall|field: FieldName| #[trigger] value_in(fields@, field) == common_value(kind, field),
{
    let fields = DiagnosticFields::new();
    proof {
        assert forall|field: FieldName| #[trigger] value_in(fields@, field) is None by {
            crate::diagnostics::lemma_nothing_recorded(field);
        }
    }
    fields.record(FieldName::DiagnosticContract, DIAGNOSTIC_CONTRACT_MARKER.to_owned()).record(
        FieldName::EventId,
        kind.id().to_owned(),
    ).record(FieldName::Message, kind.message().to_owned())
}

/// The event of a state transition.
pub fn state_transition_event(
    from: RuntimeState,
    to: RuntimeState,
    reason: RuntimeTransition,
) -> (fields: DiagnosticFields)
    ensures
        forall|field: FieldName| #[trigger]
            value_in(fields@, field) == transition_value(from, to, reason, field),
{
    common_fields(EventKind::StateTransition).record(
        FieldName::FromState,
        from.id().to_owned(),
    ).record(FieldName::ToState, to.id().to_owned()).record(
        FieldName::Reason,
        reason.id().to_owned(),
    )
}

/// The event of a fault.
pub fn fault_event(fault: RuntimeFault, endpoint: Option<RuntimeEndpoint>) -> (fields:
    DiagnosticFields)
    ensures
        forall|field: FieldName| #[trigger]
            value_in(fields@, field) == fault_value(fault, endpoint, field),
{
    let endpoint = match endpoint {
        Some(endpoint) => endpoint.id(),
        None => "none",
    };
    common_fields(EventKind::RuntimeFault).record(FieldName::FaultId, fault.id().to_owned()).record(
        FieldName::Endpoint,
        endpoint.to_owned(),
    )
}

fn tell_duty(pwm: Pwm) -> (text: String)
    ensures
        text@ == decimal_text(pwm.duty() as nat),
{
    decimal(pwm.value() as u64)
}

/// The event of a completed control cycle.
pub fn control_cycle_event(event: ControlCycleDiagnostic<'_>) -> (fields: DiagnosticFields)
    ensures
        forall|field: FieldName| #[trigger] value_in(fields@, field) == cycle_value(event, field),
{
    let power = match event.external_power {
        ExternalPower::Connected => "connected",
        ExternalPower::Disconnected => "disconnected",
        ExternalPower::Unknown => "unknown",
    };
    let profile = match event.external_power {
        ExternalPower::Disconnected => "battery",
        ExternalPower::Connected | ExternalPower::Unknown => "ac",
    };
    common_fields(EventKind::ControlCycle).record(
        FieldName::CpuTemperatureCelsius,
        event.cpu_temperature.to_owned(),
    ).record(FieldName::GpuTemperatureCelsius, event.gpu_temperature.to_owned()).record(
        FieldName::ExternalPower,
        power.to_owned(),
    ).record(FieldName::Profile, profile.to_owned()).record(
        FieldName::DemandPercent,
        event.demand.to_owned(),
    ).record(FieldName::CpuPwmEndpoint, RuntimeEndpoint::CpuPwm.id().to_owned()).record(
        FieldName::CpuCommandPwm,
        tell_duty(event.cpu.command),
    ).record(FieldName::CpuReadbackPwm, tell_duty(event.cpu.readback)).record(
        FieldName::CpuTachometerEndpoint,
        RuntimeEndpoint::CpuTachometer.id().to_owned(),
    ).record(FieldName::CpuRpmCommandPwm, tell_duty(event.cpu.rpm_command)).record(
        FieldName::CpuRpm,
        decimal(event.cpu.rpm as u64),
    ).record(FieldName::GpuPwmEndpoint, RuntimeEndpoint::GpuPwm.id().to_owned()).record(
        FieldName::GpuCommandPwm,
        tell_duty(event.gpu.command),
    ).record(FieldName::GpuReadbackPwm, tell_duty(event.gpu.readback)).record(
        FieldName::GpuTachometerEndpoint,
        RuntimeEndpoint::GpuTachometer.id().to_owned(),
    ).record(FieldName::GpuRpmCommandPwm, tell_duty(event.gpu.rpm_command)).record(
        FieldName::GpuRpm,
        decimal(event.gpu.rpm as u64),
    )
}

fn tell_truth(value: bool) -> (text: String)
    ensures
        text@ == truth_text(value),
{
    if value {
        "true".to_owned()
    } else {
        "false".to_owned()
    }
}

/// The event of a restoration attempt.
pub fn restoration_attempt_event(event: RestorationAttemptDiagnostic) -> (fields: DiagnosticFields)
    ensures
        forall|field: FieldName| #[trigger]
            value_in(fields@, field) == restoration_value(event, field),
{
    common_fields(EventKind::RestorationAttempt).record(
        FieldName::Attempt,
        decimal(event.attempt as u64),
    ).record(FieldName::CpuEnableEndpoint, RuntimeEndpoint::CpuEnable.id().to_owned()).record(
        FieldName::CpuWriteSucceeded,
        tell_truth(event.cpu.write_succeeded),
    ).record(FieldName::CpuModeReadback, event.cpu.readback.id().to_owned()).record(
        FieldName::GpuEnableEndpoint,
        RuntimeEndpoint::GpuEnable.id().to_owned(),
    ).record(FieldName::GpuWriteSucceeded, tell_truth(event.gpu.write_succeeded)).record(
        FieldName::GpuModeReadback,
        event.gpu.readback.id().to_owned(),
    )
}

/// Plain text shows as it is and is short.
proof fn lemma_plain(text: Seq<char>)
    requires
        is_plain(text),
    ensures
        unquoted(text) == text,
        encode_utf8(text).len() <= 64,
{
    is_ascii_chars_encode_utf8(text);
}

proof fn lemma_decimal_is_plain(number: nat)
    requires
        number <= u32::MAX,
    ensures
        is_plain(decimal_text(number)),
        unquoted(decimal_text(number)) == decimal_text(number),
        encode_utf8(decimal_text(number)).len() <= 64,
{
    lemma_decimal_is_short(number);
    let text = decimal_text(number);
    assert forall|i: int| 0 <= i < text.len() implies '\0' <= #[trigger] text[i] <= '\u{7f}' by {
        assert(crate::text::is_digit(text[i]));
    }
    lemma_plain(text);
}

proof fn lemma_common_is_plain(kind: EventKind)
    ensures
        forall|field: FieldName|
            (#[trigger] common_value(kind, field)) matches Some(text) ==> is_plain(text)
                && unquoted(text) == text && encode_utf8(text).len() <= 64,
{
    kind.lemma_is_plain();
    reveal_strlit("pt31553.typed-runtime-diagnostics.v1");
    reveal_strlit("fan controller state transition");
    reveal_strlit("fan controller fault");
    reveal_strlit("completed fan control cycle");
    reveal_strlit("Firmware Auto restoration attempt");
    lemma_plain(kind.label());
    lemma_plain(kind.message_text());
    lemma_plain("pt31553.typed-runtime-diagnostics.v1"@);
}

/// Every state transition is an event that the journal may hold.
pub proof fn transitions_are_accepted(
    entries: Seq<FieldModel>,
    from: RuntimeState,
    to: RuntimeState,
    reason: RuntimeTransition,
    numbers: CycleNumbers,
)
    requires
        forall|field: FieldName| #[trigger]
            value_in(entries, field) == transition_value(from, to, reason, field),
    ensures
        is_typed_contract_event(entries, numbers),
{
    lemma_common_is_plain(EventKind::StateTransition);
    from.lemma_is_plain();
    to.lemma_is_plain();
    reason.lemma_is_plain();
    lemma_plain(from.label());
    lemma_plain(to.label());
    lemma_plain(reason.label());
    assert(is_event_of(entries, EventKind::StateTransition, numbers));
}

/// Every fault is an event that the journal may hold.
pub proof fn faults_are_accepted(
    entries: Seq<FieldModel>,
    fault: RuntimeFault,
    endpoint: Option<RuntimeEndpoint>,
    numbers: CycleNumbers,
)
    requires
        forall|field: FieldName| #[trigger]
            value_in(entries, field) == fault_value(fault, endpoint, field),
    ensures
        is_typed_contract_event(entries, numbers),
{
    lemma_common_is_plain(EventKind::RuntimeFault);
    fault.lemma_is_plain();
    lemma_plain(fault.label());
    match endpoint {
        Some(endpoint) => {
            endpoint.lemma_is_plain();
            lemma_plain(endpoint.label());
        },
        None => {
            reveal_strlit("none");
            lemma_plain("none"@);
        },
    }
    assert(is_event_of(entries, EventKind::RuntimeFault, numbers));
}

/// A restoration attempt is an event that the journal may hold exactly if it is one of the three
/// attempts that a restoration has.
pub proof fn attempts_are_accepted(
    entries: Seq<FieldModel>,
    event: RestorationAttemptDiagnostic,
    numbers: CycleNumbers,
)
    requires
        forall|field: FieldName| #[trigger]
            value_in(entries, field) == restoration_value(event, field),
    ensures
        is_typed_contract_event(entries, numbers) <==> 1 <= event.attempt <= 3,
{
    lemma_common_is_plain(EventKind::RestorationAttempt);
    lemma_decimal_is_plain(event.attempt as nat);
    decimal_text_reads_back(event.attempt as nat, 255);
    event.cpu.readback.lemma_is_plain();
    event.gpu.readback.lemma_is_plain();
    lemma_plain(event.cpu.readback.label());
    lemma_plain(event.gpu.readback.label());
    RuntimeEndpoint::CpuEnable.lemma_is_plain();
    RuntimeEndpoint::GpuEnable.lemma_is_plain();
    lemma_plain(RuntimeEndpoint::CpuEnable.label());
    lemma_plain(RuntimeEndpoint::GpuEnable.label());
    reveal_strlit("true");
    reveal_strlit("false");
    lemma_plain("true"@);
    lemma_plain("false"@);
    if 1 <= event.attempt <= 3 {
        assert(is_event_of(entries, EventKind::RestorationAttempt, numbers));
    } else if is_typed_contract_event(entries, numbers) {
        let kind = choose|kind: EventKind| is_event_of(entries, kind, numbers);
        crate::diagnostics::ids_tell_kinds_apart(kind, EventKind::RestorationAttempt);
    }
}

proof fn lemma_cycle_fans(entries: Seq<FieldModel>, event: ControlCycleDiagnostic)
    requires
        forall|field: FieldName| #[trigger] value_in(entries, field) == cycle_value(event, field),
    ensures
        cycle_fans_are_valid(entries),
        encode_utf8(RuntimeEndpoint::CpuPwm.label()).len() <= 64,
        encode_utf8(RuntimeEndpoint::CpuTachometer.label()).len() <= 64,
        encode_utf8(RuntimeEndpoint::GpuPwm.label()).len() <= 64,
        encode_utf8(RuntimeEndpoint::GpuTachometer.label()).len() <= 64,
        forall|number: u32| encode_utf8(#[trigger] decimal_text(number as nat)).len() <= 64,
        forall|duty: u8| encode_utf8(#[trigger] decimal_text(duty as nat)).len() <= 64,
{
    assert forall|number: u32|
        encode_utf8(#[trigger] decimal_text(number as nat)).len() <= 64 && unquoted(
            decimal_text(number as nat),
        ) == decimal_text(number as nat) && unsigned_number(
            decimal_text(number as nat),
            0xffff_ffff,
        ) is Some by {
        lemma_decimal_is_plain(number as nat);
        decimal_text_reads_back(number as nat, 0xffff_ffff);
    }
    assert forall|duty: u8|
        encode_utf8(#[trigger] decimal_text(duty as nat)).len() <= 64 && unquoted(
            decimal_text(duty as nat),
        ) == decimal_text(duty as nat) && unsigned_number(
            decimal_text(duty as nat),
            255,
        ) is Some by {
        lemma_decimal_is_plain(duty as nat);
        decimal_text_reads_back(duty as nat, 255);
    }
    RuntimeEndpoint::CpuPwm.lemma_is_plain();
    RuntimeEndpoint::CpuTachometer.lemma_is_plain();
    RuntimeEndpoint::GpuPwm.lemma_is_plain();
    RuntimeEndpoint::GpuTachometer.lemma_is_plain();
    lemma_plain(RuntimeEndpoint::CpuPwm.label());
    lemma_plain(RuntimeEndpoint::CpuTachometer.label());
    lemma_plain(RuntimeEndpoint::GpuPwm.label());
    lemma_plain(RuntimeEndpoint::GpuTachometer.label());
}

/// A completed control cycle is an event that the journal may hold exactly if its temperatures are
/// finite, its demand is a percentage, and all three are shown in at most 64 bytes.
#[verifier::rlimit(50)]
pub proof fn cycles_are_accepted(
    entries: Seq<FieldModel>,
    event: ControlCycleDiagnostic,
    numbers: CycleNumbers,
)
    requires
        forall|field: FieldName| #[trigger] value_in(entries, field) == cycle_value(event, field),
    ensures
        is_typed_contract_event(entries, numbers) <==> {
            &&& numbers.cpu_temperature_is_finite
            &&& numbers.gpu_temperature_is_finite
            &&& numbers.demand_is_percentage
            &&& encode_utf8(event.cpu_temperature@).len() <= 64
            &&& encode_utf8(event.gpu_temperature@).len() <= 64
            &&& encode_utf8(event.demand@).len() <= 64
        },
{
    lemma_common_is_plain(EventKind::ControlCycle);
    lemma_cycle_fans(entries, event);
    reveal_strlit("connected");
    reveal_strlit("disconnected");
    reveal_strlit("unknown");
    reveal_strlit("ac");
    reveal_strlit("battery");
    lemma_plain("connected"@);
    lemma_plain("disconnected"@);
    lemma_plain("unknown"@);
    lemma_plain("ac"@);
    lemma_plain("battery"@);
    if numbers.cpu_temperature_is_finite && numbers.gpu_temperature_is_finite
        && numbers.demand_is_percentage && encode_utf8(event.cpu_temperature@).len() <= 64
        && encode_utf8(event.gpu_temperature@).len() <= 64 && encode_utf8(event.demand@).len()
        <= 64 {
        assert(all_short(entries));
        assert(is_event_of(entries, EventKind::ControlCycle, numbers));
    } else if is_typed_contract_event(entries, numbers) {
        let kind = choose|kind: EventKind| is_event_of(entries, kind, numbers);
        crate::diagnostics::ids_tell_kinds_apart(kind, EventKind::ControlCycle);
        assert(value_in(entries, FieldName::CpuTemperatureCelsius) == Some(event.cpu_temperature@));
        assert(value_in(entries, FieldName::GpuTemperatureCelsius) == Some(event.gpu_temperature@));
        assert(value_in(entries, FieldName::DemandPercent) == Some(event.demand@));
    }
}

} // verus!
