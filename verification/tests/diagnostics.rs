use std::collections::BTreeMap;

use fan_control_core::demand::Pwm;
use fan_control_core::diagnostic_events::{
    control_cycle_event, fault_event, restoration_attempt_event, state_transition_event,
    ControlCycleDiagnostic, FanDiagnostic, RestorationAttemptDiagnostic, RestorationFanDiagnostic,
};
use fan_control_core::diagnostic_fields::{FieldName, FIELD_COUNT};
use fan_control_core::diagnostic_ids::{
    RestorationReadback, RuntimeEndpoint, RuntimeFault, RuntimeState, RuntimeTransition,
    CONTROL_CYCLE_EVENT_ID, DIAGNOSTIC_CONTRACT_MARKER, RESTORATION_ATTEMPT_EVENT_ID,
    RUNTIME_FAULT_EVENT_ID, STATE_TRANSITION_EVENT_ID,
};
use fan_control_core::diagnostics::{
    sample_fault, CycleNumbers, DiagnosticFields, RequiredInput, SampleSetError, RUNTIME_TARGET,
};
use fan_control_core::external_power::ExternalPower;
use fan_control_core::journal::{journal_entry, put_native_field, EventLevel};

fn good_numbers() -> CycleNumbers {
    CycleNumbers {
        cpu_temperature_is_finite: true,
        gpu_temperature_is_finite: true,
        demand_is_percentage: true,
    }
}

fn parse_native_fields(mut payload: &[u8]) -> BTreeMap<String, String> {
    let mut fields = BTreeMap::new();
    while !payload.is_empty() {
        let name_end = payload.iter().position(|byte| *byte == b'\n').unwrap();
        let name = std::str::from_utf8(&payload[..name_end]).unwrap();
        payload = &payload[name_end + 1..];
        let length = u64::from_le_bytes(payload[..8].try_into().unwrap()) as usize;
        payload = &payload[8..];
        let value = std::str::from_utf8(&payload[..length]).unwrap();
        payload = &payload[length + 1..];
        fields.insert(name.to_owned(), value.to_owned());
    }
    fields
}

fn capture_native_event(level: EventLevel, fields: DiagnosticFields) -> BTreeMap<String, String> {
    let payload = journal_entry(RUNTIME_TARGET, level, &fields, good_numbers()).unwrap();
    parse_native_fields(&payload)
}

fn assert_native_fields(event: &BTreeMap<String, String>, expected: &[(&str, &str)]) {
    assert!(event.contains_key("MESSAGE"));
    assert_eq!(event.len(), expected.len() + 1);
    for (name, value) in expected {
        assert_eq!(event.get(*name).map(String::as_str), Some(*value), "{name}");
    }

    assert!(!event.contains_key("CODE_FILE"));
    assert!(!event.contains_key("CODE_LINE"));
    assert!(!event.contains_key("TARGET"));
}

fn pwm(percent_hundredths: u32) -> Pwm {
    Pwm::from_demand(percent_hundredths, 100)
}

fn cycle() -> ControlCycleDiagnostic<'static> {
    ControlCycleDiagnostic {
        cpu_temperature: "71.5",
        gpu_temperature: "64",
        external_power: ExternalPower::Disconnected,
        demand: "63.25",
        cpu: FanDiagnostic {
            command: pwm(6_325),
            readback: pwm(6_325),
            rpm_command: pwm(5_800),
            rpm: 3210,
        },
        gpu: FanDiagnostic {
            command: pwm(6_325),
            readback: pwm(6_325),
            rpm_command: pwm(5_800),
            rpm: 3090,
        },
    }
}

fn attempt(number: u8) -> RestorationAttemptDiagnostic {
    RestorationAttemptDiagnostic {
        attempt: number,
        cpu: RestorationFanDiagnostic {
            write_succeeded: false,
            readback: RestorationReadback::Unreadable,
        },
        gpu: RestorationFanDiagnostic {
            write_succeeded: true,
            readback: RestorationReadback::FirmwareAuto,
        },
    }
}

#[test]
fn native_journald_sink_delivers_every_allowlisted_event_contract() {
    let fault = capture_native_event(
        EventLevel::Error,
        fault_event(
            RuntimeFault::UnexpectedReadback,
            Some(RuntimeEndpoint::GpuPwm),
        ),
    );
    assert_native_fields(
        &fault,
        &[
            ("PRIORITY", "3"),
            ("PT31553_EVENT_ID", RUNTIME_FAULT_EVENT_ID),
            ("PT31553_FAULT_ID", "unexpected-readback"),
            ("PT31553_ENDPOINT", "acer:gpu:pwm2"),
        ],
    );

    let transition = capture_native_event(
        EventLevel::Info,
        state_transition_event(
            RuntimeState::Arming,
            RuntimeState::CustomControl,
            RuntimeTransition::ArmingConfirmed,
        ),
    );
    assert_native_fields(
        &transition,
        &[
            ("PRIORITY", "5"),
            ("PT31553_EVENT_ID", STATE_TRANSITION_EVENT_ID),
            ("PT31553_FROM_STATE", "arming"),
            ("PT31553_TO_STATE", "custom-control"),
            ("PT31553_REASON", "arming-confirmed"),
        ],
    );

    let cycle = capture_native_event(EventLevel::Info, control_cycle_event(cycle()));
    assert_native_fields(
        &cycle,
        &[
            ("PRIORITY", "5"),
            ("PT31553_EVENT_ID", CONTROL_CYCLE_EVENT_ID),
            ("PT31553_CPU_TEMPERATURE_CELSIUS", "71.5"),
            ("PT31553_GPU_TEMPERATURE_CELSIUS", "64"),
            ("PT31553_EXTERNAL_POWER", "disconnected"),
            ("PT31553_PROFILE", "battery"),
            ("PT31553_DEMAND_PERCENT", "63.25"),
            ("PT31553_CPU_PWM_ENDPOINT", "acer:cpu:pwm1"),
            ("PT31553_CPU_COMMAND_PWM", "162"),
            ("PT31553_CPU_READBACK_PWM", "162"),
            ("PT31553_CPU_TACHOMETER_ENDPOINT", "acer:cpu:fan1_input"),
            ("PT31553_CPU_RPM_COMMAND_PWM", "148"),
            ("PT31553_CPU_RPM", "3210"),
            ("PT31553_GPU_PWM_ENDPOINT", "acer:gpu:pwm2"),
            ("PT31553_GPU_COMMAND_PWM", "162"),
            ("PT31553_GPU_READBACK_PWM", "162"),
            ("PT31553_GPU_TACHOMETER_ENDPOINT", "acer:gpu:fan2_input"),
            ("PT31553_GPU_RPM_COMMAND_PWM", "148"),
            ("PT31553_GPU_RPM", "3090"),
        ],
    );

    let restoration =
        capture_native_event(EventLevel::Info, restoration_attempt_event(attempt(2)));
    assert_native_fields(
        &restoration,
        &[
            ("PRIORITY", "5"),
            ("PT31553_EVENT_ID", RESTORATION_ATTEMPT_EVENT_ID),
            ("PT31553_ATTEMPT", "2"),
            ("PT31553_CPU_ENABLE_ENDPOINT", "acer:cpu:pwm1_enable"),
            ("PT31553_CPU_WRITE_SUCCEEDED", "false"),
            ("PT31553_CPU_MODE_READBACK", "unreadable"),
            ("PT31553_GPU_ENABLE_ENDPOINT", "acer:gpu:pwm2_enable"),
            ("PT31553_GPU_WRITE_SUCCEEDED", "true"),
            ("PT31553_GPU_MODE_READBACK", "firmware-auto"),
        ],
    );

    let raw = DiagnosticFields::new()
        .record(FieldName::EventId, RUNTIME_FAULT_EVENT_ID.to_owned())
        .record(FieldName::Endpoint, "/private/device/path".to_owned())
        .record(FieldName::Message, "raw private error".to_owned());
    assert!(journal_entry(RUNTIME_TARGET, EventLevel::Error, &raw, good_numbers()).is_none());

    let disguised = DiagnosticFields::new()
        .record(
            FieldName::DiagnosticContract,
            DIAGNOSTIC_CONTRACT_MARKER.to_owned(),
        )
        .record(FieldName::EventId, RUNTIME_FAULT_EVENT_ID.to_owned())
        .record(FieldName::FaultId, "unexpected-readback".to_owned())
        .record(FieldName::Endpoint, "/private/device/path".to_owned())
        .record(FieldName::Message, "fan controller fault".to_owned());
    assert!(journal_entry(RUNTIME_TARGET, EventLevel::Error, &disguised, good_numbers()).is_none());
}

#[test]
fn events_of_other_targets_are_dropped() {
    let fields = fault_event(RuntimeFault::ShutdownRequested, None);
    assert_eq!(fields.value(FieldName::Endpoint), Some("none"));
    assert!(journal_entry("other", EventLevel::Error, &fields, good_numbers()).is_none());
    assert!(journal_entry(RUNTIME_TARGET, EventLevel::Error, &fields, good_numbers()).is_some());
}

#[test]
fn surplus_and_missing_fields_are_refused() {
    let surplus = fault_event(RuntimeFault::ShutdownRequested, None)
        .record(FieldName::Attempt, "1".to_owned());
    assert!(!surplus.is_typed_contract_event(good_numbers()));
    let missing = DiagnosticFields::new()
        .record(
            FieldName::DiagnosticContract,
            DIAGNOSTIC_CONTRACT_MARKER.to_owned(),
        )
        .record(FieldName::EventId, RUNTIME_FAULT_EVENT_ID.to_owned())
        .record(FieldName::Message, "fan controller fault".to_owned());
    assert!(!missing.is_typed_contract_event(good_numbers()));
}

#[test]
fn quotation_marks_around_values_are_ignored() {
    let quoted = fault_event(RuntimeFault::ShutdownRequested, None)
        .record(FieldName::Endpoint, "\"none\"".to_owned());
    assert!(quoted.is_typed_contract_event(good_numbers()));
    assert_eq!(quoted.value(FieldName::Endpoint), Some("\"none\""));
}

#[test]
fn only_three_restoration_attempts_are_accepted() {
    for (number, accepted) in [(0, false), (1, true), (3, true), (4, false)] {
        assert_eq!(
            restoration_attempt_event(attempt(number)).is_typed_contract_event(good_numbers()),
            accepted
        );
    }
}

#[test]
fn control_cycles_need_finite_numbers_and_short_texts() {
    let fields = control_cycle_event(cycle());
    assert!(fields.is_typed_contract_event(good_numbers()));
    let mut numbers = good_numbers();
    numbers.cpu_temperature_is_finite = false;
    assert!(!fields.is_typed_contract_event(numbers));
    numbers = good_numbers();
    numbers.demand_is_percentage = false;
    assert!(!fields.is_typed_contract_event(numbers));
    let long = "7".repeat(65);
    let mut event = cycle();
    event.cpu_temperature = &long;
    assert!(!control_cycle_event(event).is_typed_contract_event(good_numbers()));
    let fitting = "7".repeat(64);
    event.cpu_temperature = &fitting;
    assert!(control_cycle_event(event).is_typed_contract_event(good_numbers()));
}

#[test]
fn external_power_selects_the_profile() {
    for (power, text, profile) in [
        (ExternalPower::Connected, "connected", "ac"),
        (ExternalPower::Disconnected, "disconnected", "battery"),
        (ExternalPower::Unknown, "unknown", "ac"),
    ] {
        let mut event = cycle();
        event.external_power = power;
        let fields = control_cycle_event(event);
        assert_eq!(fields.value(FieldName::ExternalPower), Some(text));
        assert_eq!(fields.value(FieldName::Profile), Some(profile));
    }
}

#[test]
fn field_names_stand_in_alphabetical_order() {
    let names: Vec<&str> = (0..FIELD_COUNT).map(|i| FieldName::at(i).name()).collect();
    let mut sorted = names.clone();
    sorted.sort();
    assert_eq!(names, sorted);
    for place in 0..FIELD_COUNT {
        let field = FieldName::at(place);
        assert_eq!(field.position(), place);
        assert_eq!(FieldName::named(field.name()), Some(field));
    }
    assert_eq!(FieldName::named("path"), None);
    assert_eq!(FieldName::DiagnosticContract.native_name(), None);
    assert_eq!(FieldName::CpuRpm.native_name(), Some("PT31553_CPU_RPM"));
}

#[test]
fn later_values_replace_earlier_ones() {
    let fields = DiagnosticFields::new()
        .record(FieldName::Reason, "a".to_owned())
        .record(FieldName::Attempt, "b".to_owned())
        .record(FieldName::Reason, "c".to_owned());
    assert_eq!(fields.value(FieldName::Reason), Some("c"));
    assert_eq!(fields.value(FieldName::Attempt), Some("b"));
    assert_eq!(fields.value(FieldName::Endpoint), None);
}

#[test]
fn native_fields_carry_their_length() {
    let mut payload = vec![1];
    put_native_field(&mut payload, "A", "\u{e9}\n");
    assert_eq!(
        payload,
        [1, b'A', b'\n', 3, 0, 0, 0, 0, 0, 0, 0, 0xc3, 0xa9, b'\n', b'\n']
    );
}

#[test]
fn levels_have_journal_priorities() {
    let priorities: Vec<&str> = [
        EventLevel::Error,
        EventLevel::Warn,
        EventLevel::Info,
        EventLevel::Debug,
        EventLevel::Trace,
    ]
    .iter()
    .map(|level| level.priority())
    .collect();
    assert_eq!(priorities, ["3", "4", "5", "6", "7"]);
}

#[test]
fn incomplete_samples_are_told_as_faults() {
    assert_eq!(
        sample_fault(&SampleSetError::Stale {
            input: RequiredInput::Gpu
        }),
        (
            RuntimeFault::SensorStale,
            Some(RuntimeEndpoint::GpuTemperature)
        )
    );
    assert_eq!(
        sample_fault(&SampleSetError::Input {
            input: RequiredInput::Power
        }),
        (
            RuntimeFault::SensorUnavailable,
            Some(RuntimeEndpoint::ExternalPower)
        )
    );
    assert_eq!(
        sample_fault(&SampleSetError::CaptureCycleOverflow),
        (RuntimeFault::DeadlineExceeded, None)
    );
    assert_eq!(
        sample_fault(&SampleSetError::CadenceMissed),
        (RuntimeFault::CadenceMissed, None)
    );
}
