//! What a diagnostic event tells, told by reading it back.

use vstd::prelude::*;
use crate::diagnostic_events::{
    cycle_value, fault_value, power_text, profile_text, restoration_value, transition_value,
    ControlCycleDiagnostic, RestorationAttemptDiagnostic,
};
use crate::diagnostic_fields::FieldName;
use crate::diagnostics::{
    is_event_of, is_typed_contract_event, number_in, shown_in, unquoted, unquoted_end,
    unquoted_start, CycleNumbers, FieldModel,
};
use crate::diagnostic_ids::{
    EventKind, RuntimeEndpoint, RuntimeFault, RuntimeState, RuntimeTransition,
};
use crate::external_power::ExternalPower;
use crate::journal::{native_field, native_payload, EventLevel};
use crate::text::{decimal_text_reads_back, unsigned_number};

verus! {

/// A control cycle's event reads back the commanded duty, the duty that was read back, the duty that the
/// speed belongs to and the speed, each fan's own.
pub proof fn cycle_events_read_back_the_fans(event: ControlCycleDiagnostic)
    ensures
        cycle_value(event, FieldName::CpuCommandPwm) matches Some(text) && unsigned_number(
            text,
            255,
        ) == Some(event.cpu.command.duty() as nat),
        cycle_value(event, FieldName::CpuReadbackPwm) matches Some(text) && unsigned_number(
            text,
            255,
        ) == Some(event.cpu.readback.duty() as nat),
        cycle_value(event, FieldName::CpuRpmCommandPwm) matches Some(text) && unsigned_number(
            text,
            255,
        ) == Some(event.cpu.rpm_command.duty() as nat),
        cycle_value(event, FieldName::CpuRpm) matches Some(text) && unsigned_number(
            text,
            u32::MAX as nat,
        ) == Some(event.cpu.rpm as nat),
        cycle_value(event, FieldName::GpuCommandPwm) matches Some(text) && unsigned_number(
            text,
            255,
        ) == Some(event.gpu.command.duty() as nat),
        cycle_value(event, FieldName::GpuReadbackPwm) matches Some(text) && unsigned_number(
            text,
            255,
        ) == Some(event.gpu.readback.duty() as nat),
        cycle_value(event, FieldName::GpuRpmCommandPwm) matches Some(text) && unsigned_number(
            text,
            255,
        ) == Some(event.gpu.rpm_command.duty() as nat),
        cycle_value(event, FieldName::GpuRpm) matches Some(text) && unsigned_number(
            text,
            u32::MAX as nat,
        ) == Some(event.gpu.rpm as nat),
        cycle_value(event, FieldName::CpuTemperatureCelsius) == Some(event.cpu_temperature@),
        cycle_value(event, FieldName::GpuTemperatureCelsius) == Some(event.gpu_temperature@),
        cycle_value(event, FieldName::DemandPercent) == Some(event.demand@),
{
    decimal_text_reads_back(event.cpu.command.duty() as nat, 255);
    decimal_text_reads_back(event.cpu.readback.duty() as nat, 255);
    decimal_text_reads_back(event.cpu.rpm_command.duty() as nat, 255);
    decimal_text_reads_back(event.cpu.rpm as nat, u32::MAX as nat);
    decimal_text_reads_back(event.gpu.command.duty() as nat, 255);
    decimal_text_reads_back(event.gpu.readback.duty() as nat, 255);
    decimal_text_reads_back(event.gpu.rpm_command.duty() as nat, 255);
    decimal_text_reads_back(event.gpu.rpm as nat, u32::MAX as nat);
}

/// The profile of an event is the battery's exactly where external power is known to be disconnected, and
/// the three states of external power have three different names.
pub proof fn events_name_the_battery_only_without_power(power: ExternalPower)
    ensures
        profile_text(power) == "battery"@ <==> power is Disconnected,
        profile_text(power) == "ac"@ <==> !(power is Disconnected),
        power_text(power) == "connected"@ <==> power is Connected,
        power_text(power) == "disconnected"@ <==> power is Disconnected,
        power_text(power) == "unknown"@ <==> power is Unknown,
{
    reveal_strlit("battery");
    reveal_strlit("ac");
    reveal_strlit("connected");
    reveal_strlit("disconnected");
    reveal_strlit("unknown");
    assert("battery"@.len() == 7 && "ac"@.len() == 2);
    assert("connected"@.len() == 9 && "disconnected"@.len() == 12 && "unknown"@.len() == 7);
}

/// A restoration's event reads back which attempt it was, and for each fan whether the write succeeded
/// and what mode was read back.
pub proof fn restoration_events_read_back_the_attempt(event: RestorationAttemptDiagnostic)
    ensures
        restoration_value(event, FieldName::Attempt) matches Some(text) && unsigned_number(
            text,
            255,
        ) == Some(event.attempt as nat),
        restoration_value(event, FieldName::CpuWriteSucceeded) == Some("true"@)
            <==> event.cpu.write_succeeded,
        restoration_value(event, FieldName::GpuWriteSucceeded) == Some("true"@)
            <==> event.gpu.write_succeeded,
        restoration_value(event, FieldName::CpuModeReadback) == Some(event.cpu.readback.label()),
        restoration_value(event, FieldName::GpuModeReadback) == Some(event.gpu.readback.label()),
{
    decimal_text_reads_back(event.attempt as nat, 255);
    reveal_strlit("true");
    reveal_strlit("false");
    assert("true"@.len() == 4 && "false"@.len() == 5);
}

/// A transition's event names the state it leaves, the one it enters and the reason, and a fault's event
/// the fault and its endpoint, `none` where it has none.
pub proof fn transition_and_fault_events_name_their_parts(
    from: RuntimeState,
    to: RuntimeState,
    reason: RuntimeTransition,
    fault: RuntimeFault,
    endpoint: RuntimeEndpoint,
)
    ensures
        transition_value(from, to, reason, FieldName::FromState) == Some(from.label()),
        transition_value(from, to, reason, FieldName::ToState) == Some(to.label()),
        transition_value(from, to, reason, FieldName::Reason) == Some(reason.label()),
        fault_value(fault, Some(endpoint), FieldName::FaultId) == Some(fault.label()),
        fault_value(fault, Some(endpoint), FieldName::Endpoint) == Some(endpoint.label()),
        fault_value(fault, None, FieldName::Endpoint) == Some("none"@),
{
}

/// Quotation marks are taken from both ends of a text and from nowhere else.
pub proof fn quotes_are_taken_from_the_ends(text: Seq<char>)
    requires
        text.len() > 0,
        text[0] != '"',
        text.last() != '"',
    ensures
        unquoted(text) == text,
        unquoted(seq!['"'] + text + seq!['"']) == text,
{
    let left = seq!['"'] + text;
    let both = left + seq!['"'];
    assert(both.drop_first() =~= text + seq!['"']);
    assert(both[0] == '"');
    let right = text + seq!['"'];
    assert(right[0] == text[0]);
    assert(unquoted_start(right) == right);
    assert(unquoted_start(both) == right) by {
        reveal_with_fuel(unquoted_start, 2);
    }
    assert(right.last() == '"');
    assert(right.drop_last() =~= text);
    assert(unquoted_end(text) == text);
    assert(unquoted_end(right) == text) by {
        reveal_with_fuel(unquoted_end, 2);
    }
}

/// A typed event is of the contract, short in every field, and holds what its kind asks for: states that
/// are known, a fault that is known, duties up to 255, or an attempt from the first to the third.
pub proof fn typed_events_hold_allowed_values(
    entries: Seq<FieldModel>,
    kind: EventKind,
    numbers: CycleNumbers,
)
    requires
        is_event_of(entries, kind, numbers),
    ensures
        shown_in(entries, FieldName::DiagnosticContract) == Some(
            "pt31553.typed-runtime-diagnostics.v1"@,
        ),
        shown_in(entries, FieldName::EventId) == Some(kind.label()),
        kind is StateTransition ==> {
            &&& shown_in(entries, FieldName::Message) == Some("fan controller state transition"@)
            &&& shown_in(entries, FieldName::FromState) matches Some(text) && RuntimeState::is_id(
                text,
            )
            &&& shown_in(entries, FieldName::ToState) matches Some(text) && RuntimeState::is_id(
                text,
            )
            &&& shown_in(entries, FieldName::Reason) matches Some(text)
                && RuntimeTransition::is_id(text)
        },
        kind is RuntimeFault ==> {
            &&& shown_in(entries, FieldName::Message) == Some("fan controller fault"@)
            &&& shown_in(entries, FieldName::FaultId) matches Some(text) && RuntimeFault::is_id(
                text,
            )
            &&& shown_in(entries, FieldName::Endpoint) matches Some(text) && (text == "none"@
                || RuntimeEndpoint::is_id(text))
        },
        kind is ControlCycle ==> {
            &&& shown_in(entries, FieldName::Message) == Some("completed fan control cycle"@)
            &&& numbers.cpu_temperature_is_finite && numbers.gpu_temperature_is_finite
            &&& numbers.demand_is_percentage
            &&& number_in(entries, FieldName::CpuCommandPwm, 255) is Some
            &&& number_in(entries, FieldName::CpuReadbackPwm, 255) is Some
            &&& number_in(entries, FieldName::CpuRpmCommandPwm, 255) is Some
            &&& number_in(entries, FieldName::CpuRpm, u32::MAX as nat) is Some
            &&& number_in(entries, FieldName::GpuCommandPwm, 255) is Some
            &&& number_in(entries, FieldName::GpuReadbackPwm, 255) is Some
            &&& number_in(entries, FieldName::GpuRpmCommandPwm, 255) is Some
            &&& number_in(entries, FieldName::GpuRpm, u32::MAX as nat) is Some
            &&& shown_in(entries, FieldName::Profile) == Some("ac"@) || shown_in(
                entries,
                FieldName::Profile,
            ) == Some("battery"@)
            &&& shown_in(entries, FieldName::ExternalPower) == Some("connected"@) || shown_in(
                entries,
                FieldName::ExternalPower,
            ) == Some("disconnected"@) || shown_in(entries, FieldName::ExternalPower) == Some(
                "unknown"@,
            )
        },
        kind is RestorationAttempt ==> {
            &&& shown_in(entries, FieldName::Message) == Some("Firmware Auto restoration attempt"@)
            &&& number_in(entries, FieldName::Attempt, 255) matches Some(attempt)
            &&& attempt == 1 || attempt == 2 || attempt == 3
            &&& shown_in(entries, FieldName::CpuWriteSucceeded) == Some("true"@) || shown_in(
                entries,
                FieldName::CpuWriteSucceeded,
            ) == Some("false"@)
            &&& shown_in(entries, FieldName::GpuWriteSucceeded) == Some("true"@) || shown_in(
                entries,
                FieldName::GpuWriteSucceeded,
            ) == Some("false"@)
        },
        is_typed_contract_event(entries, numbers),
{
}

/// An event's payload starts with its priority, 3 for errors to 7 for traces, and goes on with one frame
/// for each field that has a native name, in order.
pub proof fn payloads_start_with_their_priority(
    level: EventLevel,
    entries: Seq<FieldModel>,
    entry: FieldModel,
)
    ensures
        native_payload(level, Seq::empty()) == native_field("PRIORITY"@, level.priority_text()),
        level.priority_text() == "3"@ <==> level is Error,
        level.priority_text() == "4"@ <==> level is Warn,
        level.priority_text() == "5"@ <==> level is Info,
        level.priority_text() == "6"@ <==> level is Debug,
        level.priority_text() == "7"@ <==> level is Trace,
        entry.field.native_label() matches Some(name) ==> native_payload(level, entries.push(entry))
            == native_payload(level, entries) + native_field(name, entry.value),
        entry.field.native_label() is None ==> native_payload(level, entries.push(entry))
            == native_payload(level, entries),
{
    reveal_strlit("3");
    reveal_strlit("4");
    reveal_strlit("5");
    reveal_strlit("6");
    reveal_strlit("7");
    assert("3"@[0] == '3' && "4"@[0] == '4' && "5"@[0] == '5' && "6"@[0] == '6' && "7"@[0] == '7');
    assert(native_payload(level, Seq::empty()) =~= native_field(
        "PRIORITY"@,
        level.priority_text(),
    ));
    assert(entries.push(entry).drop_last() =~= entries);
    if entry.field.native_label() is Some {
        let name = entry.field.native_label()->0;
        assert(native_payload(level, entries.push(entry)) =~= native_payload(level, entries)
            + native_field(name, entry.value));
    }
}

} // verus!
