//! Control and tachometer evidence of a Custom-control run, sample by sample.

use vstd::prelude::*;
use vstd::string::*;
use crate::baseline::{
    arrives_on_time, is_at_abort_limit, is_on_time, is_throttling, outside_run_text,
    reaches_abort_limit, recorded_sample, restamped, settle_sample, stamped_in_run,
    telemetry_is_usable, throttles,
};
use crate::baseline_record::{lemma_kept_grows, phase_is, runs_on};
use crate::evidence::{
    clone_text_option, profile_source, EvidenceFan, EvidenceProfile, EvidenceTimestamp,
    FanCalibrationEvidence, FanCommandEvidence, FanControlField, FanReadbackEvidence,
    FanReadbackField, FanReadbackPhase, FaultEvidence, ObservationOutcome, RpmAnchorEvidence,
    SampleFreshness, TelemetrySampleEvidence,
};
use crate::evidence_rules::{command_value_is_valid, readback_value_fits, readback_value_is_valid};
use crate::matched_record::{
    only, option_is, sample_commands, sample_readbacks, unique_command, unique_readback,
};
use crate::run_log::{
    fault, fault_list, lemma_reported_faults, nonempty, nonempty_text, push_fault,
    push_reported_faults, reported_faults, with_fault_if, FaultModel,
};
use crate::select::{kept, lemma_kept_ends, lemma_kept_step};
use crate::tachometer::{expected_rpm, expected_rpm_from_anchors, in_band, rpm_in_band};
use crate::text::{clone_texts, decimal, decimal_text, join, join3, same_text, text_option, texts};

verus! {

broadcast use vstd::string::group_string_axioms;

/// One observation of a Custom-control run.
#[derive(Debug, PartialEq, Eq)]
pub struct MatchedWorkloadObservation {
    pub sample: TelemetrySampleEvidence,
    pub commands: Vec<FanCommandEvidence>,
    pub readbacks: Vec<FanReadbackEvidence>,
    pub controller_fault: Option<String>,
    pub system_stable: bool,
    pub kernel_faults: Vec<String>,
    pub nvidia_faults: Vec<String>,
}

/// The text of a fan's name.
pub open spec fn fan_text(fan: EvidenceFan) -> Seq<char> {
    match fan {
        EvidenceFan::Cpu => "Cpu"@,
        EvidenceFan::Gpu => "Gpu"@,
    }
}

/// The text of a field's name.
pub open spec fn field_text(field: FanReadbackField) -> Seq<char> {
    match field {
        FanReadbackField::Pwm => "Pwm"@,
        FanReadbackField::Enable => "Enable"@,
        FanReadbackField::Rpm => "Rpm"@,
    }
}

pub(crate) fn fan_name(fan: EvidenceFan) -> (name: &'static str)
    ensures
        name@ == fan_text(fan),
{
    match fan {
        EvidenceFan::Cpu => "Cpu",
        EvidenceFan::Gpu => "Gpu",
    }
}

fn field_name(field: FanReadbackField) -> (name: &'static str)
    ensures
        name@ == field_text(field),
{
    match field {
        FanReadbackField::Pwm => "Pwm",
        FanReadbackField::Enable => "Enable",
        FanReadbackField::Rpm => "Rpm",
    }
}

/// The endpoint identities that a run's first readbacks came from.
#[derive(Debug)]
pub struct ControlEvidenceState {
    pub cpu_pwm: Option<String>,
    pub cpu_enable: Option<String>,
    pub cpu_rpm: Option<String>,
    pub gpu_pwm: Option<String>,
    pub gpu_enable: Option<String>,
    pub gpu_rpm: Option<String>,
}

/// The contents of a control state.
pub struct ControlModel {
    pub cpu_pwm: Option<Seq<char>>,
    pub cpu_enable: Option<Seq<char>>,
    pub cpu_rpm: Option<Seq<char>>,
    pub gpu_pwm: Option<Seq<char>>,
    pub gpu_enable: Option<Seq<char>>,
    pub gpu_rpm: Option<Seq<char>>,
}

impl View for ControlEvidenceState {
    type V = ControlModel;

    open spec fn view(&self) -> ControlModel {
        ControlModel {
            cpu_pwm: text_option(self.cpu_pwm),
            cpu_enable: text_option(self.cpu_enable),
            cpu_rpm: text_option(self.cpu_rpm),
            gpu_pwm: text_option(self.gpu_pwm),
            gpu_enable: text_option(self.gpu_enable),
            gpu_rpm: text_option(self.gpu_rpm),
        }
    }
}

impl ControlModel {
    /// The identity known for an endpoint.
    pub open spec fn get(self, fan: EvidenceFan, field: FanReadbackField) -> Option<Seq<char>> {
        match (fan, field) {
            (EvidenceFan::Cpu, FanReadbackField::Pwm) => self.cpu_pwm,
            (EvidenceFan::Cpu, FanReadbackField::Enable) => self.cpu_enable,
            (EvidenceFan::Cpu, FanReadbackField::Rpm) => self.cpu_rpm,
            (EvidenceFan::Gpu, FanReadbackField::Pwm) => self.gpu_pwm,
            (EvidenceFan::Gpu, FanReadbackField::Enable) => self.gpu_enable,
            (EvidenceFan::Gpu, FanReadbackField::Rpm) => self.gpu_rpm,
        }
    }

    /// The same with one more identity known.
    pub open spec fn with(
        self,
        fan: EvidenceFan,
        field: FanReadbackField,
        identity: Seq<char>,
    ) -> ControlModel {
        match (fan, field) {
            (EvidenceFan::Cpu, FanReadbackField::Pwm) => ControlModel {
                cpu_pwm: Some(identity),
                ..self
            },
            (EvidenceFan::Cpu, FanReadbackField::Enable) => ControlModel {
                cpu_enable: Some(identity),
                ..self
            },
            (EvidenceFan::Cpu, FanReadbackField::Rpm) => ControlModel {
                cpu_rpm: Some(identity),
                ..self
            },
            (EvidenceFan::Gpu, FanReadbackField::Pwm) => ControlModel {
                gpu_pwm: Some(identity),
                ..self
            },
            (EvidenceFan::Gpu, FanReadbackField::Enable) => ControlModel {
                gpu_enable: Some(identity),
                ..self
            },
            (EvidenceFan::Gpu, FanReadbackField::Rpm) => ControlModel {
                gpu_rpm: Some(identity),
                ..self
            },
        }
    }
}

/// A control state that knows no identity yet.
pub open spec fn unknown_control() -> ControlModel {
    ControlModel {
        cpu_pwm: None,
        cpu_enable: None,
        cpu_rpm: None,
        gpu_pwm: None,
        gpu_enable: None,
        gpu_rpm: None,
    }
}

impl ControlEvidenceState {
    pub fn new() -> (state: ControlEvidenceState)
        ensures
            state@ == unknown_control(),
    {
        ControlEvidenceState {
            cpu_pwm: None,
            cpu_enable: None,
            cpu_rpm: None,
            gpu_pwm: None,
            gpu_enable: None,
            gpu_rpm: None,
        }
    }

    /// The identity known for an endpoint.
    pub fn endpoint_identity(&self, fan: EvidenceFan, field: FanReadbackField) -> (identity: &Option<
        String,
    >)
        ensures
            text_option(*identity) == self@.get(fan, field),
    {
        match (fan, field) {
            (EvidenceFan::Cpu, FanReadbackField::Pwm) => &self.cpu_pwm,
            (EvidenceFan::Cpu, FanReadbackField::Enable) => &self.cpu_enable,
            (EvidenceFan::Cpu, FanReadbackField::Rpm) => &self.cpu_rpm,
            (EvidenceFan::Gpu, FanReadbackField::Pwm) => &self.gpu_pwm,
            (EvidenceFan::Gpu, FanReadbackField::Enable) => &self.gpu_enable,
            (EvidenceFan::Gpu, FanReadbackField::Rpm) => &self.gpu_rpm,
        }
    }

    fn learn(&mut self, fan: EvidenceFan, field: FanReadbackField, identity: String)
        ensures
            final(self)@ == old(self)@.with(fan, field, identity@),
    {
        match (fan, field) {
            (EvidenceFan::Cpu, FanReadbackField::Pwm) => {
                self.cpu_pwm = Some(identity);
            },
            (EvidenceFan::Cpu, FanReadbackField::Enable) => {
                self.cpu_enable = Some(identity);
            },
            (EvidenceFan::Cpu, FanReadbackField::Rpm) => {
                self.cpu_rpm = Some(identity);
            },
            (EvidenceFan::Gpu, FanReadbackField::Pwm) => {
                self.gpu_pwm = Some(identity);
            },
            (EvidenceFan::Gpu, FanReadbackField::Enable) => {
                self.gpu_enable = Some(identity);
            },
            (EvidenceFan::Gpu, FanReadbackField::Rpm) => {
                self.gpu_rpm = Some(identity);
            },
        }
    }
}

/// Duty commands to a fan.
pub open spec fn duty_commands(fan: EvidenceFan) -> spec_fn(FanCommandEvidence) -> bool {
    |command: FanCommandEvidence| command.fan == fan && command.field == FanControlField::Pwm
}

/// Readbacks of a fan's field.
pub open spec fn field_readbacks(fan: EvidenceFan, field: FanReadbackField) -> spec_fn(
    FanReadbackEvidence,
) -> bool {
    |readback: FanReadbackEvidence| readback.fan == fan && readback.field == field
}

/// Whether a moment lies between a sample and its capture.
pub open spec fn during_capture(
    at: EvidenceTimestamp,
    sample_at: EvidenceTimestamp,
    captured_at: EvidenceTimestamp,
) -> bool {
    sample_at.monotonic_millis <= at.monotonic_millis <= captured_at.monotonic_millis
}

/// The duty command of a fan that a sample is bound to.
pub open spec fn bound_command(
    commands: Seq<FanCommandEvidence>,
    fan: EvidenceFan,
    sample_at: EvidenceTimestamp,
    captured_at: EvidenceTimestamp,
) -> Option<FanCommandEvidence> {
    match only(commands, duty_commands(fan)) {
        Some(command) => if during_capture(command.timestamp, sample_at, captured_at) {
            Some(command)
        } else {
            None
        },
        None => None,
    }
}

/// The confirmed readback of a fan's field that a sample is bound to.
pub open spec fn bound_readback(
    readbacks: Seq<FanReadbackEvidence>,
    fan: EvidenceFan,
    field: FanReadbackField,
    sample_at: EvidenceTimestamp,
    captured_at: EvidenceTimestamp,
) -> Option<FanReadbackEvidence> {
    match only(readbacks, field_readbacks(fan, field)) {
        Some(readback) => if readback.phase == Some(FanReadbackPhase::Sample) && readback.outcome
            == ObservationOutcome::Confirmed && during_capture(
            readback.timestamp,
            sample_at,
            captured_at,
        ) {
            Some(readback)
        } else {
            None
        },
        None => None,
    }
}

/// The fault code for a field that is not confirmed.
pub open spec fn field_fault_code(field: FanReadbackField) -> Seq<char> {
    if field == FanReadbackField::Rpm {
        "fan-feedback-loss"@
    } else {
        "mode-pwm-mismatch"@
    }
}

/// Whether a field's value confirms Custom control at the commanded duty with a turning fan.
pub open spec fn value_confirms(
    field: FanReadbackField,
    value: Option<u32>,
    command: Option<FanCommandEvidence>,
) -> bool {
    match field {
        FanReadbackField::Enable => value == Some(1u32),
        FanReadbackField::Pwm => command matches Some(command) && value == Some(command.value),
        FanReadbackField::Rpm => value matches Some(rpm) && rpm > 0,
    }
}

/// A fan and a field, named for an operator.
pub open spec fn fan_field_text(fan: EvidenceFan, field: FanReadbackField) -> Seq<char> {
    fan_text(fan) + " "@ + field_text(field)
}

/// What a run knows and holds against a fan's field after a sample.
pub open spec fn after_field(
    control: ControlModel,
    faults: Seq<FaultModel>,
    readbacks: Seq<FanReadbackEvidence>,
    command: Option<FanCommandEvidence>,
    fan: EvidenceFan,
    field: FanReadbackField,
    sample_at: EvidenceTimestamp,
    captured_at: EvidenceTimestamp,
) -> (ControlModel, Seq<FaultModel>) {
    match bound_readback(readbacks, fan, field, sample_at, captured_at) {
        None => (
            control,
            faults.push(
                fault(
                    sample_at,
                    field_fault_code(field),
                    fan_field_text(fan, field)
                        + " readback is missing, ambiguous, or unconfirmed"@,
                ),
            ),
        ),
        Some(readback) => {
            let judged = with_fault_if(
                faults,
                !value_confirms(field, readback.value, command),
                fault(
                    sample_at,
                    field_fault_code(field),
                    fan_field_text(fan, field) + " readback does not confirm the commanded state"@,
                ),
            );
            match control.get(fan, field) {
                Some(identity) => (
                    control,
                    with_fault_if(
                        judged,
                        identity != readback.endpoint_identity@,
                        fault(
                            sample_at,
                            "endpoint-identity-change"@,
                            fan_field_text(fan, field) + " endpoint identity changed"@,
                        ),
                    ),
                ),
                None => (control.with(fan, field, readback.endpoint_identity@), judged),
            }
        },
    }
}

/// What a run knows and holds against a fan after a sample.
pub open spec fn after_fan(
    control: ControlModel,
    faults: Seq<FaultModel>,
    commands: Seq<FanCommandEvidence>,
    readbacks: Seq<FanReadbackEvidence>,
    fan: EvidenceFan,
    sample_at: EvidenceTimestamp,
    captured_at: EvidenceTimestamp,
) -> (ControlModel, Seq<FaultModel>) {
    let command = bound_command(commands, fan, sample_at, captured_at);
    let bound = with_fault_if(
        faults,
        command is None,
        fault(
            sample_at,
            "mode-pwm-mismatch"@,
            fan_text(fan) + " requires one timestamp-bound PWM command per sample"@,
        ),
    );
    let enable = after_field(
        control,
        bound,
        readbacks,
        command,
        fan,
        FanReadbackField::Enable,
        sample_at,
        captured_at,
    );
    let pwm = after_field(
        enable.0,
        enable.1,
        readbacks,
        command,
        fan,
        FanReadbackField::Pwm,
        sample_at,
        captured_at,
    );
    after_field(
        pwm.0,
        pwm.1,
        readbacks,
        command,
        fan,
        FanReadbackField::Rpm,
        sample_at,
        captured_at,
    )
}

fn is_during_capture(
    at: EvidenceTimestamp,
    sample_at: EvidenceTimestamp,
    captured_at: EvidenceTimestamp,
) -> (yes: bool)
    ensures
        yes == during_capture(at, sample_at, captured_at),
{
    sample_at.monotonic_millis <= at.monotonic_millis && at.monotonic_millis
        <= captured_at.monotonic_millis
}

fn find_bound_command(
    commands: &Vec<FanCommandEvidence>,
    fan: EvidenceFan,
    sample_at: EvidenceTimestamp,
    captured_at: EvidenceTimestamp,
) -> (command: Option<FanCommandEvidence>)
    ensures
        command == bound_command(commands@, fan, sample_at, captured_at),
{
    let ghost keep = duty_commands(fan);
    let mut found: Option<usize> = None;
    let mut i: usize = 0;
    proof {
        lemma_kept_ends(commands@, keep);
    }
    while i < commands.len()
        invariant
            i <= commands.len(),
            keep == duty_commands(fan),
            found matches Some(b) ==> b < i && kept(commands@.take(i as int), keep)
                == seq![commands@[b as int]],
            found is None ==> kept(commands@.take(i as int), keep).len() == 0,
        decreases commands.len() - i,
    {
        proof {
            lemma_kept_step(commands@, keep, i as int);
        }
        if commands[i].fan == fan && commands[i].field == FanControlField::Pwm {
            assert(keep(commands@[i as int]));
            if found.is_some() {
                proof {
                    lemma_kept_grows(commands@, keep, i + 1);
                }
                return None;
            }
            found = Some(i);
            assert(kept(commands@.take(i + 1), keep) =~= seq![commands@[i as int]]);
        } else {
            assert(!keep(commands@[i as int]));
        }
        i = i + 1;
    }
    proof {
        lemma_kept_ends(commands@, keep);
    }
    match found {
        Some(b) => if is_during_capture(commands[b].timestamp, sample_at, captured_at) {
            Some(commands[b])
        } else {
            None
        },
        None => None,
    }
}

fn find_bound_readback(
    readbacks: &Vec<FanReadbackEvidence>,
    fan: EvidenceFan,
    field: FanReadbackField,
    sample_at: EvidenceTimestamp,
    captured_at: EvidenceTimestamp,
) -> (found: Option<usize>)
    ensures
        found matches Some(b) ==> b < readbacks@.len(),
        bound_readback(readbacks@, fan, field, sample_at, captured_at) == match found {
            Some(b) => Some(readbacks@[b as int]),
            None => None,
        },
{
    let ghost keep = field_readbacks(fan, field);
    let mut found: Option<usize> = None;
    let mut i: usize = 0;
    proof {
        lemma_kept_ends(readbacks@, keep);
    }
    while i < readbacks.len()
        invariant
            i <= readbacks.len(),
            keep == field_readbacks(fan, field),
            found matches Some(b) ==> b < i && kept(readbacks@.take(i as int), keep)
                == seq![readbacks@[b as int]],
            found is None ==> kept(readbacks@.take(i as int), keep).len() == 0,
        decreases readbacks.len() - i,
    {
        proof {
            lemma_kept_step(readbacks@, keep, i as int);
        }
        if readbacks[i].fan == fan && readbacks[i].field == field {
            assert(keep(readbacks@[i as int]));
            if found.is_some() {
                proof {
                    lemma_kept_grows(readbacks@, keep, i + 1);
                }
                return None;
            }
            found = Some(i);
            assert(kept(readbacks@.take(i + 1), keep) =~= seq![readbacks@[i as int]]);
        } else {
            assert(!keep(readbacks@[i as int]));
        }
        i = i + 1;
    }
    proof {
        lemma_kept_ends(readbacks@, keep);
    }
    match found {
        Some(b) => if phase_is(readbacks[b].phase, FanReadbackPhase::Sample)
            && readbacks[b].outcome == ObservationOutcome::Confirmed && is_during_capture(
            readbacks[b].timestamp,
            sample_at,
            captured_at,
        ) {
            Some(b)
        } else {
            None
        },
        None => None,
    }
}

fn field_code(field: FanReadbackField) -> (code: &'static str)
    ensures
        code@ == field_fault_code(field),
{
    if field == FanReadbackField::Rpm {
        "fan-feedback-loss"
    } else {
        "mode-pwm-mismatch"
    }
}

fn describe(fan: EvidenceFan, field: FanReadbackField, rest: &str) -> (text: String)
    ensures
        text@ == fan_field_text(fan, field) + rest@,
{
    let mut text = join3(fan_name(fan), " ", field_name(field));
    text.append(rest);
    text
}

fn validate_field(
    readbacks: &Vec<FanReadbackEvidence>,
    command: Option<FanCommandEvidence>,
    fan: EvidenceFan,
    field: FanReadbackField,
    sample_at: EvidenceTimestamp,
    captured_at: EvidenceTimestamp,
    state: &mut ControlEvidenceState,
    faults: &mut Vec<FaultEvidence>,
)
    ensures
        (final(state)@, fault_list(final(faults)@)) == after_field(
            old(state)@,
            fault_list(old(faults)@),
            readbacks@,
            command,
            fan,
            field,
            sample_at,
            captured_at,
        ),
{
    let readback = match find_bound_readback(readbacks, fan, field, sample_at, captured_at) {
        Some(b) => &readbacks[b],
        None => {
            push_fault(
                faults,
                sample_at,
                field_code(field),
                describe(
                    fan,
                    field,
                    " readback is missing, ambiguous, or unconfirmed",
                ).as_str(),
            );
            return;
        },
    };
    let confirms = match field {
        FanReadbackField::Enable => option_is(readback.value, 1),
        FanReadbackField::Pwm => match command {
            Some(command) => option_is(readback.value, command.value),
            None => false,
        },
        FanReadbackField::Rpm => match readback.value {
            Some(rpm) => rpm > 0,
            None => false,
        },
    };
    if !confirms {
        push_fault(
            faults,
            sample_at,
            field_code(field),
            describe(fan, field, " readback does not confirm the commanded state").as_str(),
        );
    }
    let changed: Option<bool> = match state.endpoint_identity(fan, field) {
        Some(identity) => Some(
            !same_text(identity.as_str(), readback.endpoint_identity.as_str()),
        ),
        None => None,
    };
    match changed {
        Some(changed) => {
            if changed {
                push_fault(
                    faults,
                    sample_at,
                    "endpoint-identity-change",
                    describe(fan, field, " endpoint identity changed").as_str(),
                );
            }
        },
        None => {
            state.learn(fan, field, readback.endpoint_identity.clone());
        },
    }
}

/// Judges a fan's control evidence of one sample.
pub fn validate_fan_control_evidence(
    commands: &Vec<FanCommandEvidence>,
    readbacks: &Vec<FanReadbackEvidence>,
    fan: EvidenceFan,
    sample_at: EvidenceTimestamp,
    captured_at: EvidenceTimestamp,
    state: &mut ControlEvidenceState,
    faults: &mut Vec<FaultEvidence>,
)
    ensures
        (final(state)@, fault_list(final(faults)@)) == after_fan(
            old(state)@,
            fault_list(old(faults)@),
            commands@,
            readbacks@,
            fan,
            sample_at,
            captured_at,
        ),
{
    let command = find_bound_command(commands, fan, sample_at, captured_at);
    if command.is_none() {
        push_fault(
            faults,
            sample_at,
            "mode-pwm-mismatch",
            join(
                fan_name(fan),
                " requires one timestamp-bound PWM command per sample",
            ).as_str(),
        );
    }
    validate_field(
        readbacks,
        command,
        fan,
        FanReadbackField::Enable,
        sample_at,
        captured_at,
        state,
        faults,
    );
    validate_field(
        readbacks,
        command,
        fan,
        FanReadbackField::Pwm,
        sample_at,
        captured_at,
        state,
        faults,
    );
    validate_field(
        readbacks,
        command,
        fan,
        FanReadbackField::Rpm,
        sample_at,
        captured_at,
        state,
        faults,
    );
}

/// The last duty change of a fan, and whether the fan has answered it.
#[derive(Debug, Clone, Copy, PartialEq, Eq, Structural)]
pub struct TachometerCommandState {
    pub pwm: u8,
    pub confirmed_at_millis: u64,
    pub settled: bool,
}

/// The last duty changes of both fans.
#[derive(Debug, Clone, Copy, PartialEq, Eq)]
pub struct TachometerEvidenceState {
    pub cpu: Option<TachometerCommandState>,
    pub gpu: Option<TachometerCommandState>,
}

#[derive(Debug, Clone, Copy, PartialEq, Eq, Structural)]
pub enum TachometerEvidenceError {
    InvalidEvidence,
    DeadlineOverflow,
    OutOfBand { expected_rpm: u32, actual_rpm: u32 },
}

/// The two calibrations that a run's tachometers are held against.
#[derive(Debug, Clone, Copy)]
pub struct MatchedWorkloadTachometerCalibrations<'a> {
    pub cpu: &'a FanCalibrationEvidence,
    pub gpu: &'a FanCalibrationEvidence,
}

/// Whether a sample's duty and speed readbacks are usable under its command.
pub open spec fn tachometer_is_readable(
    command: FanCommandEvidence,
    pwm: FanReadbackEvidence,
    rpm: FanReadbackEvidence,
) -> bool {
    &&& command.value <= 255
    &&& rpm.value matches Some(value) && value > 0
    &&& pwm.outcome == ObservationOutcome::Confirmed
    &&& pwm.value == Some(command.value)
    &&& rpm.outcome == ObservationOutcome::Confirmed
    &&& pwm.timestamp.monotonic_millis <= rpm.timestamp.monotonic_millis
}

/// The last duty change, given a sample's command and duty readback.
pub open spec fn commanded_state(
    state: Option<TachometerCommandState>,
    command: FanCommandEvidence,
    pwm: FanReadbackEvidence,
) -> TachometerCommandState {
    match state {
        Some(current) => if current.pwm == command.value {
            current
        } else {
            TachometerCommandState {
                pwm: command.value as u8,
                confirmed_at_millis: pwm.timestamp.monotonic_millis,
                settled: false,
            }
        },
        None => TachometerCommandState {
            pwm: command.value as u8,
            confirmed_at_millis: pwm.timestamp.monotonic_millis,
            settled: false,
        },
    }
}

/// What a sample tells of a fan's tachometer. A speed outside the band of a calibration is
/// tolerated until the response deadline after the last duty change.
pub open spec fn tachometer_outcome(
    state: Option<TachometerCommandState>,
    command: Option<FanCommandEvidence>,
    pwm: Option<FanReadbackEvidence>,
    rpm: Option<FanReadbackEvidence>,
    anchors: Seq<RpmAnchorEvidence>,
    response_deadline_millis: u64,
) -> (Option<TachometerCommandState>, Result<(), TachometerEvidenceError>) {
    match (command, pwm, rpm) {
        (Some(command), Some(pwm), Some(rpm)) => if !tachometer_is_readable(command, pwm, rpm) {
            (state, Err(TachometerEvidenceError::InvalidEvidence))
        } else {
            let current = commanded_state(state, command, pwm);
            let speed = rpm.value->0;
            if current.confirmed_at_millis + response_deadline_millis > u64::MAX {
                (Some(current), Err(TachometerEvidenceError::DeadlineOverflow))
            } else {
                match expected_rpm(anchors, current.pwm) {
                    None => (Some(current), Err(TachometerEvidenceError::InvalidEvidence)),
                    Some(expected) => if in_band(speed, expected) {
                        (Some(TachometerCommandState { settled: true, ..current }), Ok(()))
                    } else if rpm.timestamp.monotonic_millis <= current.confirmed_at_millis
                        + response_deadline_millis {
                        (Some(TachometerCommandState { settled: false, ..current }), Ok(()))
                    } else {
                        (
                            Some(TachometerCommandState { settled: false, ..current }),
                            Err(
                                TachometerEvidenceError::OutOfBand {
                                    expected_rpm: expected,
                                    actual_rpm: speed,
                                },
                            ),
                        )
                    },
                }
            }
        },
        _ => (state, Err(TachometerEvidenceError::InvalidEvidence)),
    }
}

/// The same, from the lists of a sample or of a whole record.
pub open spec fn tachometer_sample(
    state: Option<TachometerCommandState>,
    sample_at: EvidenceTimestamp,
    commands: Seq<FanCommandEvidence>,
    readbacks: Seq<FanReadbackEvidence>,
    fan: EvidenceFan,
    anchors: Seq<RpmAnchorEvidence>,
    response_deadline_millis: u64,
) -> (Option<TachometerCommandState>, Result<(), TachometerEvidenceError>) {
    tachometer_outcome(
        state,
        only(commands, sample_commands(fan, sample_at)),
        only(readbacks, sample_readbacks(fan, FanReadbackField::Pwm, sample_at)),
        only(readbacks, sample_readbacks(fan, FanReadbackField::Rpm, sample_at)),
        anchors,
        response_deadline_millis,
    )
}

/// Judges a fan's tachometer in one sample.
pub fn evaluate_tachometer_sample(
    sample_at: EvidenceTimestamp,
    commands: &Vec<FanCommandEvidence>,
    readbacks: &Vec<FanReadbackEvidence>,
    fan: EvidenceFan,
    calibration: &FanCalibrationEvidence,
    state: Option<TachometerCommandState>,
) -> (outcome: (Option<TachometerCommandState>, Result<(), TachometerEvidenceError>))
    ensures
        outcome == tachometer_sample(
            state,
            sample_at,
            commands@,
            readbacks@,
            fan,
            calibration@.anchors,
            calibration@.response_deadline_millis,
        ),
{
    let (command, pwm, rpm) = match (
        unique_command(commands, fan, sample_at),
        unique_readback(readbacks, fan, FanReadbackField::Pwm, sample_at),
        unique_readback(readbacks, fan, FanReadbackField::Rpm, sample_at),
    ) {
        (Some(command), Some(pwm), Some(rpm)) => (
            &commands[command],
            &readbacks[pwm],
            &readbacks[rpm],
        ),
        _ => {
            return (state, Err(TachometerEvidenceError::InvalidEvidence));
        },
    };
    if command.value > 255 {
        return (state, Err(TachometerEvidenceError::InvalidEvidence));
    }
    let commanded: u8 = command.value as u8;
    let speed: u32 = match rpm.value {
        Some(value) => value,
        None => 0,
    };
    if speed == 0 || pwm.outcome != ObservationOutcome::Confirmed || !option_is(
        pwm.value,
        command.value,
    ) || rpm.outcome != ObservationOutcome::Confirmed || rpm.timestamp.monotonic_millis
        < pwm.timestamp.monotonic_millis {
        return (state, Err(TachometerEvidenceError::InvalidEvidence));
    }
    let fresh = TachometerCommandState {
        pwm: commanded,
        confirmed_at_millis: pwm.timestamp.monotonic_millis,
        settled: false,
    };
    let current = match state {
        Some(current) => if current.pwm == commanded {
            current
        } else {
            fresh
        },
        None => fresh,
    };
    let deadline: u64 = match current.confirmed_at_millis.checked_add(
        calibration.response_deadline_millis,
    ) {
        Some(deadline) => deadline,
        None => {
            return (Some(current), Err(TachometerEvidenceError::DeadlineOverflow));
        },
    };
    let expected: u32 = match expected_rpm_from_anchors(&calibration.anchors, current.pwm) {
        Some(expected) => expected,
        None => {
            return (Some(current), Err(TachometerEvidenceError::InvalidEvidence));
        },
    };
    let settled = rpm_in_band(speed, expected);
    let judged = TachometerCommandState {
        pwm: current.pwm,
        confirmed_at_millis: current.confirmed_at_millis,
        settled,
    };
    if settled || rpm.timestamp.monotonic_millis <= deadline {
        (Some(judged), Ok(()))
    } else {
        (
            Some(judged),
            Err(
                TachometerEvidenceError::OutOfBand { expected_rpm: expected, actual_rpm: speed },
            ),
        )
    }
}

/// The message for a tachometer error.
pub open spec fn tachometer_fault(
    fan: EvidenceFan,
    at: EvidenceTimestamp,
    error: TachometerEvidenceError,
) -> FaultModel {
    match error {
        TachometerEvidenceError::InvalidEvidence => fault(
            at,
            "invalid-control-evidence"@,
            fan_text(fan) + " tachometer evidence is missing, ambiguous, or misordered"@,
        ),
        TachometerEvidenceError::DeadlineOverflow => fault(
            at,
            "fan-feedback-loss"@,
            fan_text(fan) + " tachometer response deadline overflowed"@,
        ),
        TachometerEvidenceError::OutOfBand { expected_rpm, actual_rpm } => fault(
            at,
            "fan-feedback-loss"@,
            fan_text(fan)
                + " fan tachometer settled outside its qualified \u{b1}30% band (expected "@
                + decimal_text(expected_rpm as nat) + " RPM, got "@ + decimal_text(
                actual_rpm as nat,
            ) + " RPM)"@,
        ),
    }
}

/// A list of faults after a tachometer was judged.
pub open spec fn after_tachometer(
    faults: Seq<FaultModel>,
    fan: EvidenceFan,
    at: EvidenceTimestamp,
    result: Result<(), TachometerEvidenceError>,
) -> Seq<FaultModel> {
    match result {
        Ok(()) => faults,
        Err(error) => faults.push(tachometer_fault(fan, at, error)),
    }
}

fn push_tachometer_fault(
    faults: &mut Vec<FaultEvidence>,
    fan: EvidenceFan,
    at: EvidenceTimestamp,
    result: Result<(), TachometerEvidenceError>,
)
    ensures
        fault_list(final(faults)@) == after_tachometer(fault_list(old(faults)@), fan, at, result),
{
    match result {
        Ok(()) => {},
        Err(TachometerEvidenceError::InvalidEvidence) => {
            push_fault(
                faults,
                at,
                "invalid-control-evidence",
                join(
                    fan_name(fan),
                    " tachometer evidence is missing, ambiguous, or misordered",
                ).as_str(),
            );
        },
        Err(TachometerEvidenceError::DeadlineOverflow) => {
            push_fault(
                faults,
                at,
                "fan-feedback-loss",
                join(fan_name(fan), " tachometer response deadline overflowed").as_str(),
            );
        },
        Err(TachometerEvidenceError::OutOfBand { expected_rpm, actual_rpm }) => {
            let mut detail = join3(
                fan_name(fan),
                " fan tachometer settled outside its qualified \u{b1}30% band (expected ",
                decimal(expected_rpm as u64).as_str(),
            );
            detail.append(" RPM, got ");
            detail.append(decimal(actual_rpm as u64).as_str());
            detail.append(" RPM)");
            push_fault(faults, at, "fan-feedback-loss", detail.as_str());
        },
    }
}

/// Commands within a run whose value is one that the endpoint can hold.
pub open spec fn sane_commands(
    started: EvidenceTimestamp,
    captured: EvidenceTimestamp,
) -> spec_fn(FanCommandEvidence) -> bool {
    |command: FanCommandEvidence|
        during_capture(command.timestamp, started, captured) && command_value_is_valid(command)
}

/// Readbacks within a run that name an endpoint and whose value agrees with their outcome.
pub open spec fn sane_readbacks(
    started: EvidenceTimestamp,
    captured: EvidenceTimestamp,
) -> spec_fn(FanReadbackEvidence) -> bool {
    |readback: FanReadbackEvidence|
        during_capture(readback.timestamp, started, captured) && readback.endpoint_identity@.len()
            > 0 && readback_value_is_valid(readback)
}

fn keep_sane_commands(
    commands: &Vec<FanCommandEvidence>,
    started: EvidenceTimestamp,
    captured: EvidenceTimestamp,
) -> (sane: Vec<FanCommandEvidence>)
    ensures
        sane@ == kept(commands@, sane_commands(started, captured)),
{
    let ghost keep = sane_commands(started, captured);
    let mut sane: Vec<FanCommandEvidence> = Vec::new();
    let mut i: usize = 0;
    proof {
        lemma_kept_ends(commands@, keep);
    }
    while i < commands.len()
        invariant
            i <= commands.len(),
            keep == sane_commands(started, captured),
            sane@ == kept(commands@.take(i as int), keep),
        decreases commands.len() - i,
    {
        proof {
            lemma_kept_step(commands@, keep, i as int);
        }
        let command = commands[i];
        let valid = match command.field {
            FanControlField::Pwm => command.value <= 255,
            FanControlField::Enable => command.value <= 2,
        };
        if is_during_capture(command.timestamp, started, captured) && valid {
            assert(keep(commands@[i as int]));
            sane.push(command);
        } else {
            assert(!keep(commands@[i as int]));
        }
        i = i + 1;
    }
    proof {
        lemma_kept_ends(commands@, keep);
    }
    sane
}

fn keep_sane_readbacks(
    readbacks: &Vec<FanReadbackEvidence>,
    started: EvidenceTimestamp,
    captured: EvidenceTimestamp,
) -> (sane: Vec<FanReadbackEvidence>)
    ensures
        sane@ == kept(readbacks@, sane_readbacks(started, captured)),
{
    let ghost keep = sane_readbacks(started, captured);
    let mut sane: Vec<FanReadbackEvidence> = Vec::new();
    let mut i: usize = 0;
    proof {
        lemma_kept_ends(readbacks@, keep);
    }
    while i < readbacks.len()
        invariant
            i <= readbacks.len(),
            keep == sane_readbacks(started, captured),
            sane@ == kept(readbacks@.take(i as int), keep),
        decreases readbacks.len() - i,
    {
        proof {
            lemma_kept_step(readbacks@, keep, i as int);
        }
        if is_during_capture(readbacks[i].timestamp, started, captured)
            && !readbacks[i].endpoint_identity.as_str().is_empty() && readback_value_fits(
            &readbacks[i],
        ) {
            assert(keep(readbacks@[i as int]));
            sane.push(readbacks[i].clone());
        } else {
            assert(!keep(readbacks@[i as int]));
        }
        i = i + 1;
    }
    proof {
        lemma_kept_ends(readbacks@, keep);
    }
    sane
}

/// When an observation was expected and captured.
#[derive(Debug, Clone, Copy, PartialEq, Eq, Structural)]
pub struct ObservationSchedule {
    pub run_started_at: EvidenceTimestamp,
    pub captured_at: EvidenceTimestamp,
    pub expected_millis: u64,
}

/// The contents of an observation.
pub struct MatchedObservationModel {
    pub sample: TelemetrySampleEvidence,
    pub commands: Seq<FanCommandEvidence>,
    pub readbacks: Seq<FanReadbackEvidence>,
    pub controller_fault: Option<Seq<char>>,
    pub system_stable: bool,
    pub kernel_faults: Seq<Seq<char>>,
    pub nvidia_faults: Seq<Seq<char>>,
}

impl View for MatchedWorkloadObservation {
    type V = MatchedObservationModel;

    open spec fn view(&self) -> MatchedObservationModel {
        MatchedObservationModel {
            sample: self.sample,
            commands: self.commands@,
            readbacks: self.readbacks@,
            controller_fault: text_option(self.controller_fault),
            system_stable: self.system_stable,
            kernel_faults: texts(self.kernel_faults@),
            nvidia_faults: texts(self.nvidia_faults@),
        }
    }
}

impl Clone for MatchedWorkloadObservation {
    fn clone(&self) -> (copy: MatchedWorkloadObservation)
        ensures
            copy@ == self@,
    {
        let commands = self.commands.clone();
        let readbacks = self.readbacks.clone();
        assert(commands@ =~= self.commands@);
        assert(readbacks@ =~= self.readbacks@);
        MatchedWorkloadObservation {
            sample: self.sample,
            commands,
            readbacks,
            controller_fault: clone_text_option(&self.controller_fault),
            system_stable: self.system_stable,
            kernel_faults: clone_texts(&self.kernel_faults),
            nvidia_faults: clone_texts(&self.nvidia_faults),
        }
    }
}

/// An observation as it is put on record.
pub open spec fn recorded_observation(
    observation: MatchedObservationModel,
    schedule: ObservationSchedule,
) -> MatchedObservationModel {
    MatchedObservationModel {
        sample: recorded_sample(
            restamped(observation.sample, schedule.run_started_at, schedule.captured_at),
        ),
        commands: kept(
            observation.commands,
            sane_commands(schedule.run_started_at, schedule.captured_at),
        ),
        readbacks: kept(
            observation.readbacks,
            sane_readbacks(schedule.run_started_at, schedule.captured_at),
        ),
        ..observation
    }
}

/// The faults that a sample itself shows, in order.
pub open spec fn matched_sample_faults(
    faults: Seq<FaultModel>,
    observation: MatchedObservationModel,
    profile: EvidenceProfile,
    schedule: ObservationSchedule,
) -> Seq<FaultModel> {
    let source = observation.sample.timestamp;
    let started = schedule.run_started_at;
    let captured = schedule.captured_at;
    let sample = restamped(observation.sample, started, captured);
    let at = sample.timestamp;
    let outside = with_fault_if(
        faults,
        !stamped_in_run(source, started, captured),
        fault(captured, "invalid-telemetry"@, outside_run_text(source, captured)),
    );
    let late = with_fault_if(
        outside,
        !(stamped_in_run(at, started, captured) && is_on_time(at, schedule.expected_millis)),
        fault(
            captured,
            "sample-cadence"@,
            "telemetry did not arrive on the runner-owned two-second schedule"@,
        ),
    );
    let unusable = with_fault_if(
        late,
        !telemetry_is_usable(sample),
        fault(at, "invalid-telemetry"@, "required telemetry is missing, stale, or invalid"@),
    );
    let elsewhere = with_fault_if(
        unusable,
        !(sample.external_power == Some(profile_source(profile)) && sample.selected_profile == Some(
            profile,
        )),
        fault(
            at,
            "workload-profile-mismatch"@,
            "observed power/profile does not match the baseline workload"@,
        ),
    );
    let throttled = with_fault_if(
        elsewhere,
        is_throttling(sample),
        fault(at, "thermal-throttling"@, "CPU or GPU thermal throttling was observed"@),
    );
    let hot = with_fault_if(
        throttled,
        is_at_abort_limit(sample),
        fault(at, "absolute-thermal-abort"@, "CPU reached 95 C or GPU reached 85 C"@),
    );
    match observation.controller_fault {
        Some(detail) => hot.push(
            fault(at, "controller-fault"@, nonempty_text(detail, "controller fault reported"@)),
        ),
        None => hot,
    }
}

/// What a run knows and holds against its fans.
pub struct ControlJudgement {
    pub control: ControlModel,
    pub tachometer: TachometerEvidenceState,
    pub faults: Seq<FaultModel>,
}

/// The anchors and the response deadline of a calibration.
pub struct TachometerExpectation {
    pub anchors: Seq<RpmAnchorEvidence>,
    pub response_deadline_millis: u64,
}

/// What a calibration expects.
pub open spec fn expectation_of(calibration: FanCalibrationEvidence) -> TachometerExpectation {
    TachometerExpectation {
        anchors: calibration@.anchors,
        response_deadline_millis: calibration@.response_deadline_millis,
    }
}

/// What a run knows and holds after an observation.
pub open spec fn after_matched_observation(
    before: ControlJudgement,
    observation: MatchedObservationModel,
    profile: EvidenceProfile,
    schedule: ObservationSchedule,
    cpu: TachometerExpectation,
    gpu: TachometerExpectation,
) -> ControlJudgement {
    let recorded = recorded_observation(observation, schedule);
    let at = recorded.sample.timestamp;
    let sampled = matched_sample_faults(before.faults, observation, profile, schedule);
    let sane = with_fault_if(
        sampled,
        recorded.commands.len() != observation.commands.len() || recorded.readbacks.len()
            != observation.readbacks.len(),
        fault(
            at,
            "invalid-control-evidence"@,
            "fan command or readback evidence is malformed or outside its capture window"@,
        ),
    );
    let cpu_control = after_fan(
        before.control,
        sane,
        recorded.commands,
        recorded.readbacks,
        EvidenceFan::Cpu,
        at,
        schedule.captured_at,
    );
    let gpu_control = after_fan(
        cpu_control.0,
        cpu_control.1,
        recorded.commands,
        recorded.readbacks,
        EvidenceFan::Gpu,
        at,
        schedule.captured_at,
    );
    let cpu_speed = tachometer_sample(
        before.tachometer.cpu,
        at,
        recorded.commands,
        recorded.readbacks,
        EvidenceFan::Cpu,
        cpu.anchors,
        cpu.response_deadline_millis,
    );
    let gpu_speed = tachometer_sample(
        before.tachometer.gpu,
        at,
        recorded.commands,
        recorded.readbacks,
        EvidenceFan::Gpu,
        gpu.anchors,
        gpu.response_deadline_millis,
    );
    let turning = after_tachometer(
        after_tachometer(gpu_control.1, EvidenceFan::Cpu, at, cpu_speed.1),
        EvidenceFan::Gpu,
        at,
        gpu_speed.1,
    );
    let stable = with_fault_if(
        turning,
        !observation.system_stable,
        fault(at, "system-instability"@, "system stability check failed"@),
    );
    let kernel = reported_faults(
        stable,
        at,
        "kernel-instability"@,
        observation.kernel_faults,
        "kernel fault reported"@,
    );
    ControlJudgement {
        control: gpu_control.0,
        tachometer: TachometerEvidenceState { cpu: cpu_speed.0, gpu: gpu_speed.0 },
        faults: reported_faults(
            kernel,
            at,
            "nvidia-instability"@,
            observation.nvidia_faults,
            "NVIDIA fault reported"@,
        ),
    }
}

/// A run without a fault keeps an observation's sample as it came.
pub(crate) proof fn lemma_clean_observation(
    before: ControlJudgement,
    observation: MatchedObservationModel,
    profile: EvidenceProfile,
    schedule: ObservationSchedule,
    cpu: TachometerExpectation,
    gpu: TachometerExpectation,
)
    ensures
        after_matched_observation(before, observation, profile, schedule, cpu, gpu).faults.len()
            == 0 ==> before.faults.len() == 0 && recorded_observation(observation, schedule).sample
            == observation.sample,
{
    let at = recorded_observation(observation, schedule).sample.timestamp;
    assert forall|faults: Seq<FaultModel>| faults.len() <= (#[trigger] reported_faults(
        faults,
        at,
        "kernel-instability"@,
        observation.kernel_faults,
        "kernel fault reported"@,
    )).len() by {
        lemma_reported_faults(
            faults,
            at,
            "kernel-instability"@,
            observation.kernel_faults,
            "kernel fault reported"@,
        );
    }
    assert forall|faults: Seq<FaultModel>| faults.len() <= (#[trigger] reported_faults(
        faults,
        at,
        "nvidia-instability"@,
        observation.nvidia_faults,
        "NVIDIA fault reported"@,
    )).len() by {
        lemma_reported_faults(
            faults,
            at,
            "nvidia-instability"@,
            observation.nvidia_faults,
            "NVIDIA fault reported"@,
        );
    }
}

fn validate_matched_sample(
    observation: &mut MatchedWorkloadObservation,
    profile: EvidenceProfile,
    schedule: ObservationSchedule,
    faults: &mut Vec<FaultEvidence>,
)
    ensures
        final(observation)@ == (MatchedObservationModel {
            sample: recorded_sample(
                restamped(
                    old(observation)@.sample,
                    schedule.run_started_at,
                    schedule.captured_at,
                ),
            ),
            ..old(observation)@
        }),
        fault_list(final(faults)@) == matched_sample_faults(
            fault_list(old(faults)@),
            old(observation)@,
            profile,
            schedule,
        ),
{
    let started = schedule.run_started_at;
    let captured = schedule.captured_at;
    let source = observation.sample.timestamp;
    let mut sample = observation.sample;
    if !is_during_capture(source, started, captured) {
        let mut detail = join3(
            "telemetry source timestamp ",
            decimal(source.monotonic_millis).as_str(),
            " lies outside the active run through ",
        );
        detail.append(decimal(captured.monotonic_millis).as_str());
        push_fault(faults, captured, "invalid-telemetry", detail.as_str());
        sample.timestamp = captured;
        sample.freshness = SampleFreshness::Invalid;
    }
    let at = sample.timestamp;
    if !(is_during_capture(at, started, captured) && arrives_on_time(
        at,
        schedule.expected_millis,
    )) {
        push_fault(
            faults,
            captured,
            "sample-cadence",
            "telemetry did not arrive on the runner-owned two-second schedule",
        );
    }
    let on_profile = runs_on(&sample, profile);
    let throttling = throttles(&sample);
    let at_limit = reaches_abort_limit(&sample);
    if !settle_sample(&mut sample) {
        push_fault(
            faults,
            at,
            "invalid-telemetry",
            "required telemetry is missing, stale, or invalid",
        );
    }
    if !on_profile {
        push_fault(
            faults,
            at,
            "workload-profile-mismatch",
            "observed power/profile does not match the baseline workload",
        );
    }
    if throttling {
        push_fault(faults, at, "thermal-throttling", "CPU or GPU thermal throttling was observed");
    }
    if at_limit {
        push_fault(faults, at, "absolute-thermal-abort", "CPU reached 95 C or GPU reached 85 C");
    }
    match &observation.controller_fault {
        Some(detail) => {
            push_fault(
                faults,
                at,
                "controller-fault",
                nonempty(detail.as_str(), "controller fault reported").as_str(),
            );
        },
        None => {},
    }
    observation.sample = sample;
}

/// Judges one observation: records its faults, learns from it, and puts it into its recorded form.
pub fn validate_matched_observation(
    observation: &mut MatchedWorkloadObservation,
    profile: EvidenceProfile,
    schedule: ObservationSchedule,
    control: &mut ControlEvidenceState,
    calibrations: MatchedWorkloadTachometerCalibrations<'_>,
    tachometer: &mut TachometerEvidenceState,
    faults: &mut Vec<FaultEvidence>,
)
    ensures
        final(observation)@ == recorded_observation(old(observation)@, schedule),
        (ControlJudgement {
            control: final(control)@,
            tachometer: *final(tachometer),
            faults: fault_list(final(faults)@),
        }) == after_matched_observation(
            ControlJudgement {
                control: old(control)@,
                tachometer: *old(tachometer),
                faults: fault_list(old(faults)@),
            },
            old(observation)@,
            profile,
            schedule,
            expectation_of(*calibrations.cpu),
            expectation_of(*calibrations.gpu),
        ),
{
    let ghost original = observation@;
    validate_matched_sample(observation, profile, schedule, faults);
    let at = observation.sample.timestamp;
    let commands = keep_sane_commands(
        &observation.commands,
        schedule.run_started_at,
        schedule.captured_at,
    );
    let readbacks = keep_sane_readbacks(
        &observation.readbacks,
        schedule.run_started_at,
        schedule.captured_at,
    );
    let dropped = commands.len() != observation.commands.len() || readbacks.len()
        != observation.readbacks.len();
    observation.commands = commands;
    observation.readbacks = readbacks;
    assert(observation@ == recorded_observation(original, schedule));
    if dropped {
        push_fault(
            faults,
            at,
            "invalid-control-evidence",
            "fan command or readback evidence is malformed or outside its capture window",
        );
    }
    validate_fan_control_evidence(
        &observation.commands,
        &observation.readbacks,
        EvidenceFan::Cpu,
        at,
        schedule.captured_at,
        control,
        faults,
    );
    validate_fan_control_evidence(
        &observation.commands,
        &observation.readbacks,
        EvidenceFan::Gpu,
        at,
        schedule.captured_at,
        control,
        faults,
    );
    let (cpu, cpu_result) = evaluate_tachometer_sample(
        at,
        &observation.commands,
        &observation.readbacks,
        EvidenceFan::Cpu,
        calibrations.cpu,
        tachometer.cpu,
    );
    push_tachometer_fault(faults, EvidenceFan::Cpu, at, cpu_result);
    let (gpu, gpu_result) = evaluate_tachometer_sample(
        at,
        &observation.commands,
        &observation.readbacks,
        EvidenceFan::Gpu,
        calibrations.gpu,
        tachometer.gpu,
    );
    push_tachometer_fault(faults, EvidenceFan::Gpu, at, gpu_result);
    *tachometer = TachometerEvidenceState { cpu, gpu };
    if !observation.system_stable {
        push_fault(faults, at, "system-instability", "system stability check failed");
    }
    push_reported_faults(
        faults,
        at,
        "kernel-instability",
        &observation.kernel_faults,
        "kernel fault reported",
    );
    push_reported_faults(
        faults,
        at,
        "nvidia-instability",
        &observation.nvidia_faults,
        "NVIDIA fault reported",
    );
}

} // verus!
