//! What a valid record holds, told entry by entry.

use vstd::prelude::*;
use crate::evidence::{
    EvidenceFan, EvidenceTimestamp, EvidenceValidationError, FanCommandEvidence, RecordModel,
};
use crate::evidence_rules::{
    attempt_error, calibration_error, calibration_is_qualified_in, command_error,
    ends_in_firmware_auto, expected_commands, fault_error, first_error, identity_error, is_valid,
    observed_times, readback_error, recorded_commands, sample_error, schema_error,
    stage_is_complete, stop_error, transition_error, workload_error,
};
use crate::calibration::EventModel;
use crate::final_state::{
    attempt_time, attempts_on, command_time, commands_to, enable_readbacks_of, final_attempt,
    final_enable_readback, final_state_is_auto, readback_time, transition_time,
};
use crate::select::{kept, latest, latest_is_largest};
use crate::text::{identifier, trimmed};
use crate::thermal::FinalSlopes;

verus! {

/// Whether a moment lies within a run by the monotonic clock.
pub open spec fn lies_in_run(record: RecordModel, at: EvidenceTimestamp) -> bool {
    !(at.monotonic_millis < record.started_at.monotonic_millis) && !(at.monotonic_millis
        > record.completed_at.monotonic_millis)
}

/// A sample is accepted exactly where it was taken during the run, lacks nothing if it is fresh, and has
/// no demand or utilization over 100 percent.
pub proof fn accepted_samples_are_whole(record: RecordModel, index: int)
    ensures
        sample_error(record, index) is None <==> {
            let sample = record.samples[index];
            &&& lies_in_run(record, sample.timestamp)
            &&& sample.freshness is Fresh ==> {
                &&& sample.cpu_millicelsius is Some
                &&& sample.gpu_millicelsius is Some
                &&& sample.external_power is Some
                &&& sample.selected_profile is Some
                &&& sample.cpu_source_demand_basis_points is Some
                &&& sample.gpu_source_demand_basis_points is Some
                &&& sample.commanded_demand_basis_points is Some
                &&& sample.cpu_thermal_throttling is Some
                &&& sample.gpu_thermal_throttling is Some
            }
            &&& sample.cpu_source_demand_basis_points matches Some(share) ==> share <= 10_000
            &&& sample.gpu_source_demand_basis_points matches Some(share) ==> share <= 10_000
            &&& sample.cpu_utilization_basis_points matches Some(share) ==> share <= 10_000
            &&& sample.gpu_utilization_basis_points matches Some(share) ==> share <= 10_000
            &&& sample.commanded_demand_basis_points matches Some(share) ==> share <= 10_000
        },
{
}

/// A command is accepted exactly where it was given during the run and its value is a duty or a mode.
pub proof fn accepted_commands_are_duties_or_modes(record: RecordModel, index: int)
    ensures
        command_error(record, index) is None <==> {
            let command = record.commands[index];
            &&& lies_in_run(record, command.timestamp)
            &&& command.field is Pwm ==> command.value <= 255
            &&& command.field is Enable ==> command.value <= 2
        },
{
}

/// A restoration attempt is accepted exactly where it was made during the run, read back a mode if any,
/// and claims Firmware Auto only with a write that succeeded and a readback of it.
pub proof fn accepted_attempts_claim_what_they_read(record: RecordModel, index: int)
    ensures
        attempt_error(record, index) is None <==> {
            let attempt = record.restoration_attempts[index];
            &&& lies_in_run(record, attempt.timestamp)
            &&& attempt.enable_readback matches Some(mode) ==> mode <= 2
            &&& attempt.outcome is FirmwareAutoConfirmed ==> attempt.auto_write_succeeded
                && attempt.enable_readback == Some(2u32)
        },
{
}

/// A stopped process is accepted exactly where it is named and its stop was asked for and confirmed, in
/// this order, during the run.
pub proof fn accepted_stops_are_confirmed(record: RecordModel, index: int)
    ensures
        stop_error(record, index) is None <==> {
            let stop = record.process_stops[index];
            &&& trimmed(stop.process_identity@).len() >= 1
            &&& lies_in_run(record, stop.requested_at)
            &&& lies_in_run(record, stop.confirmed_at)
            &&& stop.requested_at.monotonic_millis <= stop.confirmed_at.monotonic_millis
        },
{
}

/// Outside the lifecycle stage a readback is accepted exactly where it was made during the run from a
/// named endpoint, holds a value unless it could not be read, a duty or mode in range, and none of what
/// only that stage records.
pub proof fn accepted_readbacks_hold_what_was_read(record: RecordModel, index: int)
    requires
        record.stage != "live-lifecycle"@,
    ensures
        readback_error(record, index) is None <==> {
            let readback = record.readbacks[index];
            &&& lies_in_run(record, readback.timestamp)
            &&& readback.outcome is Unreadable <==> readback.value is None
            &&& readback.field is Pwm ==> (readback.value matches Some(value) ==> value <= 255)
            &&& readback.field is Enable ==> (readback.value matches Some(value) ==> value <= 2)
            &&& readback.endpoint_identity@.len() >= 1
            &&& readback.source_timestamp is None
            &&& readback.fresh is None
            &&& readback.boot_id is None
        },
{
}

/// In the lifecycle stage every accepted readback names its endpoint, its source's moment and whether it
/// was fresh, and holds a value unless it could not be read.
pub proof fn accepted_lifecycle_readbacks_are_dated(record: RecordModel, index: int)
    requires
        record.stage == "live-lifecycle"@,
        readback_error(record, index) is None,
    ensures
        ({
            let readback = record.readbacks[index];
            &&& readback.outcome is Unreadable <==> readback.value is None
            &&& readback.field is Pwm ==> (readback.value matches Some(value) ==> value <= 255)
            &&& readback.field is Enable ==> (readback.value matches Some(value) ==> value <= 2)
            &&& crate::lifecycle::shows_something(readback.endpoint_identity@)
            &&& readback.source_timestamp is Some
            &&& readback.fresh is Some
            &&& readback.phase is None
            &&& readback.boot_id is None ==> lies_in_run(record, readback.timestamp)
            &&& readback.boot_id matches Some(boot_id) ==> identifier(boot_id@)
        }),
{
}

/// Outside the lifecycle stage a transition is accepted exactly where it lies in the run, between two
/// identifiers and under no boot, and a fault exactly where it lies in the run, has an identifier for a
/// code and a detail, and is under no boot.
pub proof fn accepted_states_and_faults_are_named(record: RecordModel, index: int)
    requires
        record.stage != "live-lifecycle"@,
    ensures
        transition_error(record, index) is None <==> {
            let transition = record.state_transitions[index];
            &&& lies_in_run(record, transition.timestamp)
            &&& identifier(transition.from@) && identifier(transition.to@)
            &&& transition.boot_id is None
        },
        fault_error(record, index) is None <==> {
            let fault = record.faults[index];
            &&& lies_in_run(record, fault.timestamp)
            &&& identifier(fault.code@)
            &&& fault.detail@.len() >= 1
            &&& fault.boot_id is None
        },
{
}

/// A workload is accepted exactly where it has identifiers for a name and a version and a command of at
/// least one word, none of them empty.
pub proof fn accepted_workloads_can_be_run(workload: crate::evidence::WorkloadModel)
    ensures
        workload_error(workload) is None <==> {
            &&& identifier(workload.workload_id)
            &&& identifier(workload.version)
            &&& workload.command.len() >= 1
            &&& forall|i: int|
                0 <= i < workload.command.len() ==> (#[trigger] workload.command[i]).len() >= 1
        },
{
}

/// A record is of one of two schemas. One of the first holds nothing that came with the second.
pub proof fn accepted_schemas_hold_their_fields(record: RecordModel)
    ensures
        schema_error(record) is None <==> {
            ||| record.schema_version == 2
            ||| {
                &&& record.schema_version == 1
                &&& record.starting_conditions_captured_at is None
                &&& record.workload_started_at is None
                &&& record.baseline_binding_sha256 is None
                &&& record.live_lifecycle_cases is None
                &&& forall|i: int|
                    0 <= i < record.readbacks.len() ==> {
                        let readback = #[trigger] record.readbacks[i];
                        readback.phase is None && readback.source_timestamp is None
                            && readback.fresh is None && readback.boot_id is None
                    }
                &&& forall|i: int|
                    0 <= i < record.state_transitions.len() ==> (
                    #[trigger] record.state_transitions[i]).boot_id is None
                &&& forall|i: int|
                    0 <= i < record.faults.len() ==> (#[trigger] record.faults[i]).boot_id is None
                &&& record.thermal_summary matches Some(summary) ==> summary.system_stable is None
            }
        },
{
}

proof fn lemma_no_error(check: spec_fn(int) -> Option<EvidenceValidationError>, count: nat)
    ensures
        first_error(check, count) is None <==> forall|i: int|
            0 <= i < count ==> #[trigger] check(i) is None,
    decreases count,
{
    if count > 0 {
        lemma_no_error(check, (count - 1) as nat);
    }
}

/// Every sample of a valid record is accepted.
pub proof fn samples_of_valid_records_are_accepted(record: RecordModel, slopes: FinalSlopes, index: int)
    requires
        is_valid(record, slopes),
        0 <= index < record.samples.len(),
    ensures
        sample_error(record, index) is None,
{
    let check = crate::evidence_rules::sample_checks(record);
    lemma_no_error(check, record.samples.len());
    assert(check(index) is None);
}

/// Every command of a valid record is accepted.
pub proof fn commands_of_valid_records_are_accepted(record: RecordModel, slopes: FinalSlopes, index: int)
    requires
        is_valid(record, slopes),
        0 <= index < record.commands.len(),
    ensures
        command_error(record, index) is None,
{
    let check = crate::evidence_rules::command_checks(record);
    lemma_no_error(check, record.commands.len());
    assert(check(index) is None);
}

/// Every readback of a valid record is accepted.
pub proof fn readbacks_of_valid_records_are_accepted(record: RecordModel, slopes: FinalSlopes, index: int)
    requires
        is_valid(record, slopes),
        0 <= index < record.readbacks.len(),
    ensures
        readback_error(record, index) is None,
{
    let check = crate::evidence_rules::readback_checks(record);
    lemma_no_error(check, record.readbacks.len());
    assert(check(index) is None);
}

/// Every state transition of a valid record is accepted.
pub proof fn transitions_of_valid_records_are_accepted(record: RecordModel, slopes: FinalSlopes, index: int)
    requires
        is_valid(record, slopes),
        0 <= index < record.state_transitions.len(),
    ensures
        transition_error(record, index) is None,
{
    let check = crate::evidence_rules::transition_checks(record);
    lemma_no_error(check, record.state_transitions.len());
    assert(check(index) is None);
}

/// Every fault of a valid record is accepted.
pub proof fn faults_of_valid_records_are_accepted(record: RecordModel, slopes: FinalSlopes, index: int)
    requires
        is_valid(record, slopes),
        0 <= index < record.faults.len(),
    ensures
        fault_error(record, index) is None,
{
    let check = crate::evidence_rules::fault_checks(record);
    lemma_no_error(check, record.faults.len());
    assert(check(index) is None);
}

/// Every restoration attempt of a valid record is accepted.
pub proof fn attempts_of_valid_records_are_accepted(record: RecordModel, slopes: FinalSlopes, index: int)
    requires
        is_valid(record, slopes),
        0 <= index < record.restoration_attempts.len(),
    ensures
        attempt_error(record, index) is None,
{
    let check = crate::evidence_rules::attempt_checks(record);
    lemma_no_error(check, record.restoration_attempts.len());
    assert(check(index) is None);
}

/// Every stopped process of a valid record is accepted.
pub proof fn stops_of_valid_records_are_accepted(record: RecordModel, slopes: FinalSlopes, index: int)
    requires
        is_valid(record, slopes),
        0 <= index < record.process_stops.len(),
    ensures
        stop_error(record, index) is None,
{
    let check = crate::evidence_rules::stop_checks(record);
    lemma_no_error(check, record.process_stops.len());
    assert(check(index) is None);
}

/// Every calibration of a valid record is accepted.
pub proof fn calibrations_of_valid_records_are_accepted(record: RecordModel, slopes: FinalSlopes, index: int)
    requires
        is_valid(record, slopes),
        0 <= index < record.calibration.len(),
    ensures
        calibration_error(record, index) is None,
{
    let check = crate::evidence_rules::calibration_checks(record);
    lemma_no_error(check, record.calibration.len());
    assert(check(index) is None);
}

/// A valid record has its identities in order, ends no earlier than it starts, gives a reason, and holds
/// what its stage asks for and nothing that belongs to another stage.
pub proof fn valid_records_fit_their_stage(record: RecordModel, slopes: FinalSlopes)
    requires
        is_valid(record, slopes),
    ensures
        schema_error(record) is None,
        identity_error(record.envelope) is None,
        identifier(record.stage),
        record.started_at.monotonic_millis <= record.completed_at.monotonic_millis,
        record.outcome.reason.len() >= 1,
        record.workload matches Some(workload) ==> workload_error(workload) is None,
        record.workload_started_at matches Some(at) ==> lies_in_run(record, at),
        record.starting_conditions_captured_at matches Some(at) ==> lies_in_run(record, at),
        record.process_stops.len() > 0 ==> record.stage == "supervised-endurance"@,
        record.baseline_binding_sha256 is Some <==> record.schema_version == 2 && record.stage
            == "matched-workload"@,
        record.endurance_thermal_envelope is Some <==> record.stage == "supervised-endurance"@,
        record.live_lifecycle_cases is Some <==> record.stage == "live-lifecycle"@,
        record.stage == "live-lifecycle"@ || record.stage == "supervised-endurance"@
            ==> record.schema_version == 2,
        record.stage == "live-lifecycle"@ ==> record.workload is None && record.samples.len() == 0
            && record.commands.len() == 0 && record.restoration_attempts.len() == 0
            && record.calibration.len() == 0 && record.thermal_summary is None,
{
    assert(crate::evidence_rules::header_error(record) is None);
    assert(crate::evidence_rules::stops_error(record) is None);
    assert(crate::evidence_rules::outcome_error(record, slopes) is None);
}

/// A valid record of the second schema holds one qualified calibration where it records one, of a run
/// that passed; one of each fan where a workload is matched; and none elsewhere.
pub proof fn valid_records_hold_their_calibrations(record: RecordModel, slopes: FinalSlopes)
    requires
        is_valid(record, slopes),
        record.schema_version == 2,
    ensures
        record.stage == "fan-calibration"@ ==> record.calibration.len() == 1
            && record.outcome.status is Passed,
        record.stage == "matched-workload"@ ==> record.calibration.len() == 2
            && record.calibration[0].fan != record.calibration[1].fan,
        record.stage != "fan-calibration"@ && record.stage != "matched-workload"@
            ==> record.calibration.len() == 0,
        forall|i: int|
            0 <= i < record.calibration.len() ==> #[trigger] calibration_is_qualified_in(record, i),
{
    assert(crate::evidence_rules::stage_count_error(record) is None);
    assert forall|i: int|
        0 <= i < record.calibration.len() implies #[trigger] calibration_is_qualified_in(
        record,
        i,
    ) by {
        calibrations_of_valid_records_are_accepted(record, slopes, i);
    }
}

/// A valid record of a passed run has readbacks, and a fresh sample where its stage takes any, and is
/// complete for its stage. No valid record claims a final Firmware Auto that its last readbacks or
/// restorations do not show.
pub proof fn valid_passes_are_proved(record: RecordModel, slopes: FinalSlopes)
    requires
        is_valid(record, slopes),
    ensures
        record.outcome.final_firmware_auto_confirmed <==> ends_in_firmware_auto(record),
        record.outcome.status is Passed ==> {
            &&& record.outcome.final_firmware_auto_confirmed
            &&& record.readbacks.len() >= 1
            &&& stage_is_complete(record, slopes)
            &&& record.stage != "preflight"@ && record.stage != "live-lifecycle"@ && record.stage
                != "fan-calibration"@ ==> exists|i: int|
                0 <= i < record.samples.len() && (#[trigger] record.samples[i]).freshness is Fresh
        },
{
    assert(crate::evidence_rules::outcome_error(record, slopes) is None);
}

/// The last restoration of a fan is one that was tried on it, none was tried on it later, and it came
/// after every command to the fan. There is one exactly where such an attempt was made.
pub proof fn last_restorations_follow_every_command(record: RecordModel, fan: EvidenceFan)
    ensures
        final_attempt(record, fan) matches Some(last) ==> {
            &&& last.fan == fan
            &&& record.restoration_attempts.contains(last)
            &&& forall|i: int|
                0 <= i < record.restoration_attempts.len() && (
                #[trigger] record.restoration_attempts[i]).fan == fan
                    ==> record.restoration_attempts[i].timestamp.monotonic_millis
                    <= last.timestamp.monotonic_millis
            &&& forall|i: int|
                0 <= i < record.commands.len() && (#[trigger] record.commands[i]).fan == fan
                    ==> record.commands[i].timestamp.monotonic_millis
                    < last.timestamp.monotonic_millis
        },
        final_attempt(record, fan) is Some <==> exists|k: int|
            0 <= k < record.restoration_attempts.len() && (
            #[trigger] record.restoration_attempts[k]).fan == fan && forall|i: int|
                0 <= i < record.commands.len() && (#[trigger] record.commands[i]).fan == fan
                    ==> record.commands[i].timestamp.monotonic_millis
                    < record.restoration_attempts[k].timestamp.monotonic_millis,
{
    let attempts = record.restoration_attempts;
    let commands = record.commands;
    let tried = kept(attempts, attempts_on(fan));
    let given = kept(commands, commands_to(fan));
    crate::select::kept_entries_satisfy(attempts, attempts_on(fan));
    crate::select::kept_entries_satisfy(commands, commands_to(fan));
    latest_is_largest(tried, attempt_time());
    latest_is_largest(given, command_time());
    assert forall|i: int| 0 <= i < attempts.len() && (#[trigger] attempts[i]).fan == fan implies {
        &&& latest(tried, attempt_time()) matches Some(last)
        &&& attempts[i].timestamp.monotonic_millis <= last.timestamp.monotonic_millis
    } by {
        crate::select::satisfying_entries_are_kept(attempts, attempts_on(fan), i);
        let j = choose|j: int| 0 <= j < tried.len() && tried[j] == attempts[i];
        assert(attempt_time()(tried[j]) <= attempt_time()(latest(tried, attempt_time())->0));
    }
    assert forall|i: int| 0 <= i < commands.len() && (#[trigger] commands[i]).fan == fan implies {
        &&& latest(given, command_time()) matches Some(last)
        &&& commands[i].timestamp.monotonic_millis <= last.timestamp.monotonic_millis
    } by {
        crate::select::satisfying_entries_are_kept(commands, commands_to(fan), i);
        let j = choose|j: int| 0 <= j < given.len() && given[j] == commands[i];
        assert(command_time()(given[j]) <= command_time()(latest(given, command_time())->0));
    }
    if latest(tried, attempt_time()) is Some {
        let last = latest(tried, attempt_time())->0;
        assert(tried.contains(last));
        let j = choose|j: int| 0 <= j < tried.len() && tried[j] == last;
        assert(attempts_on(fan)(tried[j]) && attempts.contains(tried[j]));
        let k = choose|k: int| 0 <= k < attempts.len() && attempts[k] == last;
        assert(attempts[k].fan == fan);
        if latest(given, command_time()) is Some {
            let latest_command = latest(given, command_time())->0;
            assert(given.contains(latest_command));
            let c = choose|c: int| 0 <= c < given.len() && given[c] == latest_command;
            assert(commands_to(fan)(given[c]) && commands.contains(given[c]));
            let d = choose|d: int| 0 <= d < commands.len() && commands[d] == latest_command;
            assert(commands[d].fan == fan);
        }
    }
}

/// A run ends in Firmware Auto only if its last state change, by the clock, is to it and no restoration
/// came after that change.
pub proof fn last_states_follow_every_restoration(record: RecordModel)
    requires
        final_state_is_auto(record),
    ensures
        exists|k: int|
            {
                &&& 0 <= k < record.state_transitions.len()
                &&& (#[trigger] record.state_transitions[k]).to@ == "firmware-auto"@
                &&& forall|i: int|
                    0 <= i < record.state_transitions.len() ==> (
                    #[trigger] record.state_transitions[i]).timestamp.monotonic_millis
                        <= record.state_transitions[k].timestamp.monotonic_millis
                &&& forall|i: int|
                    0 <= i < record.restoration_attempts.len() ==> (
                    #[trigger] record.restoration_attempts[i]).timestamp.monotonic_millis
                        <= record.state_transitions[k].timestamp.monotonic_millis
            },
{
    let states = record.state_transitions;
    let attempts = record.restoration_attempts;
    latest_is_largest(states, transition_time());
    latest_is_largest(attempts, attempt_time());
    let last = latest(states, transition_time())->0;
    let k = choose|k: int| 0 <= k < states.len() && states[k] == last;
    assert forall|i: int| 0 <= i < states.len() implies (
    #[trigger] states[i]).timestamp.monotonic_millis <= states[k].timestamp.monotonic_millis by {
        assert(transition_time()(states[i]) <= transition_time()(last));
    }
    assert forall|i: int| 0 <= i < attempts.len() implies (
    #[trigger] attempts[i]).timestamp.monotonic_millis <= states[k].timestamp.monotonic_millis by {
        assert(attempt_time()(attempts[i]) <= attempt_time()(latest(attempts, attempt_time())->0));
    }
    assert(states[k].to@ == "firmware-auto"@);
}

/// The final mode of a fan is read from its own control mode, and outside the lifecycle stage none was
/// read later.
pub proof fn final_modes_are_read_last(record: RecordModel, fan: EvidenceFan)
    ensures
        final_enable_readback(record, fan) matches Some(last) ==> {
            &&& last.fan == fan
            &&& last.field is Enable
            &&& record.readbacks.contains(last)
            &&& record.stage != "live-lifecycle"@ ==> forall|i: int|
                0 <= i < record.readbacks.len() && (#[trigger] record.readbacks[i]).fan == fan
                    && record.readbacks[i].field is Enable
                    ==> record.readbacks[i].timestamp.monotonic_millis
                    <= last.timestamp.monotonic_millis
        },
        final_enable_readback(record, fan) is None <==> forall|i: int|
            0 <= i < record.readbacks.len() ==> !((#[trigger] record.readbacks[i]).fan == fan
                && record.readbacks[i].field is Enable),
{
    let all = record.readbacks;
    let keep = enable_readbacks_of(fan);
    let read = kept(all, keep);
    crate::select::kept_entries_satisfy(all, keep);
    latest_is_largest(read, readback_time());
    if final_enable_readback(record, fan) is Some {
        let last = final_enable_readback(record, fan)->0;
        assert(read.contains(last)) by {
            if record.stage == "live-lifecycle"@ {
                assert(read[read.len() - 1] == last);
            }
        }
        let j = choose|j: int| 0 <= j < read.len() && read[j] == last;
        assert(keep(read[j]) && all.contains(read[j]));
        let k = choose|k: int| 0 <= k < all.len() && all[k] == last;
        assert(all[k].fan == fan && all[k].field is Enable);
    }
    assert forall|i: int|
        0 <= i < all.len() && (#[trigger] all[i]).fan == fan && all[i].field is Enable implies {
        &&& final_enable_readback(record, fan) matches Some(last)
        &&& record.stage != "live-lifecycle"@ ==> all[i].timestamp.monotonic_millis
            <= last.timestamp.monotonic_millis
    } by {
        crate::select::satisfying_entries_are_kept(all, keep, i);
        let j = choose|j: int| 0 <= j < read.len() && read[j] == all[i];
        if record.stage != "live-lifecycle"@ {
            assert(readback_time()(read[j]) <= readback_time()(
                latest(read, readback_time())->0,
            ));
        }
    }
}

/// The commands that are recorded of a fan between two moments are the duties that were commanded to it
/// then: each stands for a command, and each command is among them.
pub proof fn recorded_duties_are_commands(
    commands: Seq<FanCommandEvidence>,
    fan: EvidenceFan,
    first: u64,
    last: u64,
)
    ensures
        recorded_commands(commands, fan, first, last).len() <= commands.len(),
        forall|i: int|
            0 <= i < commands.len() && (#[trigger] commands[i]).fan == fan
                && commands[i].field is Pwm && first <= commands[i].timestamp.monotonic_millis
                <= last ==> recorded_commands(commands, fan, first, last).contains(
                (commands[i].timestamp.monotonic_millis, commands[i].value),
            ),
        forall|k: int|
            0 <= k < recorded_commands(commands, fan, first, last).len() ==> {
                let noted = #[trigger] recorded_commands(commands, fan, first, last)[k];
                exists|i: int|
                    {
                        &&& 0 <= i < commands.len()
                        &&& (#[trigger] commands[i]).fan == fan
                        &&& commands[i].field is Pwm
                        &&& commands[i].timestamp.monotonic_millis == noted.0
                        &&& commands[i].value == noted.1
                        &&& first <= noted.0 <= last
                    }
            },
    decreases commands.len(),
{
    if commands.len() > 0 {
        let fewer = commands.drop_last();
        recorded_duties_are_commands(fewer, fan, first, last);
        let before = recorded_commands(fewer, fan, first, last);
        let after = recorded_commands(commands, fan, first, last);
        let n = commands.len() - 1;
        assert forall|i: int|
            0 <= i < commands.len() && (#[trigger] commands[i]).fan == fan
                && commands[i].field is Pwm && first <= commands[i].timestamp.monotonic_millis
                <= last implies after.contains(
            (commands[i].timestamp.monotonic_millis, commands[i].value),
        ) by {
            let noted = (commands[i].timestamp.monotonic_millis, commands[i].value);
            if i < n {
                assert(fewer[i] == commands[i]);
                let k = choose|k: int| 0 <= k < before.len() && before[k] == noted;
                assert(after[k] == noted);
            } else {
                assert(after[after.len() - 1] == noted);
            }
        }
        assert forall|k: int| 0 <= k < after.len() implies {
            let noted = #[trigger] after[k];
            exists|i: int|
                {
                    &&& 0 <= i < commands.len()
                    &&& (#[trigger] commands[i]).fan == fan
                    &&& commands[i].field is Pwm
                    &&& commands[i].timestamp.monotonic_millis == noted.0
                    &&& commands[i].value == noted.1
                    &&& first <= noted.0 <= last
                }
        } by {
            let noted = after[k];
            if k < before.len() {
                assert(before[k] == noted);
                let i = choose|i: int|
                    {
                        &&& 0 <= i < fewer.len()
                        &&& (#[trigger] fewer[i]).fan == fan
                        &&& fewer[i].field is Pwm
                        &&& fewer[i].timestamp.monotonic_millis == noted.0
                        &&& fewer[i].value == noted.1
                        &&& first <= noted.0 <= last
                    };
                assert(commands[i] == fewer[i]);
            } else {
                assert(commands[n].fan == fan);
            }
        }
    }
}

/// Each level of a checkpoint stands for one command, at its moment and of its duty, in the order of the
/// levels; a hold stands for none.
pub proof fn levels_stand_for_commands(earlier: Seq<EventModel>, event: EventModel)
    ensures
        expected_commands(Seq::<EventModel>::empty()).len() == 0,
        event is Hold ==> expected_commands(earlier.push(event)) == expected_commands(earlier),
        event matches EventModel::Level { step, observation } ==> (step.pwm() matches Some(duty)
            ==> expected_commands(earlier.push(event)) == expected_commands(earlier).push(
            (observation.commanded_at, duty as u32),
        )),
{
    assert(earlier.push(event).drop_last() =~= earlier);
}

/// An identity is accepted exactly where it is of the first schema, has identifiers for itself and its
/// policy's version, binds the policy by 64 lower-case hexadecimal characters, and declares the
/// qualified machine.
pub proof fn accepted_identities_bind_the_policy(envelope: crate::evidence::EnvelopeModel)
    ensures
        identity_error(envelope) is None <==> {
            &&& envelope.schema_version == 1
            &&& identifier(envelope.qualification_id)
            &&& identifier(envelope.policy_version)
            &&& envelope.protected_policy_sha256.len() == 64
            &&& forall|i: int|
                0 <= i < envelope.protected_policy_sha256.len() ==> {
                    let c = #[trigger] envelope.protected_policy_sha256[i];
                    ('0' <= c && c <= '9') || ('a' <= c && c <= 'f')
                }
            &&& crate::compatibility::declaration_error(envelope.compatibility) is None
        },
{
}

/// A qualified calibration has a floor of 40, 50, 60 or 70 percent, a slowest response of one to ten
/// seconds with the deadline that follows from it, the four anchors of its floor with speeds that are
/// plausible and do not fall, and a checkpoint that replays to it.
pub proof fn qualified_calibrations_are_canonical(record: RecordModel, index: int)
    requires
        calibration_is_qualified_in(record, index),
    ensures
        ({
            let calibration = record.calibration[index];
            let floor = calibration.floor_basis_points;
            let anchors = calibration.anchors;
            &&& floor == 4_000 || floor == 5_000 || floor == 6_000 || floor == 7_000
            &&& calibration.slowest_response_millis matches Some(slowest)
            &&& 1_000 <= slowest <= 10_000
            &&& calibration.response_deadline_millis == if slowest <= 8_000 {
                slowest + 2_000
            } else {
                10_000
            }
            &&& anchors.len() == 4
            &&& anchors[0].duty_basis_points == floor
            &&& 2 * anchors[1].duty_basis_points == floor + 7_500
            &&& anchors[2].duty_basis_points == 7_500
            &&& anchors[3].duty_basis_points == 10_000
            &&& 300 <= anchors[0].median_rpm <= anchors[1].median_rpm
            &&& anchors[1].median_rpm <= anchors[2].median_rpm <= anchors[3].median_rpm <= 10_000
            &&& calibration.protocol_checkpoint matches Some(checkpoint)
            &&& crate::calibration_session::resumed(
                crate::evidence_rules::evidence_to_fan(calibration.fan),
                checkpoint,
            ) matches Some(session)
            &&& session.evidence == Some(calibration)
        }),
{
    let calibration = record.calibration[index];
    crate::session_laws::anchors_rise_from_the_floor(calibration.floor_basis_points);
    let anchors = calibration.anchors;
    let duties = crate::calibration::anchor_duties(calibration.floor_basis_points);
    assert(anchors[0].duty_basis_points == duties[0] && anchors[1].duty_basis_points == duties[1]
        && anchors[2].duty_basis_points == duties[2] && anchors[3].duty_basis_points == duties[3]);
    assert(anchors[0].median_rpm <= anchors[0int + 1].median_rpm);
    assert(anchors[1].median_rpm <= anchors[1int + 1].median_rpm);
    assert(anchors[2].median_rpm <= anchors[2int + 1].median_rpm);
}

/// Where a calibration is recorded, every command of the record belongs to it: duties other than the
/// full one go to the calibrated fan between its first and last observation, and modes are Custom until
/// then and Firmware Auto after.
pub proof fn recorded_calibrations_account_for_every_command(record: RecordModel, index: int)
    requires
        calibration_is_qualified_in(record, index),
        record.stage != "matched-workload"@,
    ensures
        exists|first: u64, last: u64|
            {
                let fan = record.calibration[index].fan;
                let events = record.calibration[index].protocol_checkpoint->0.events;
                let times = observed_times(events);
                &&& record.started_at.monotonic_millis <= first <= last
                &&& last <= record.completed_at.monotonic_millis
                &&& times.contains(first) && times.contains(last)
                &&& #[trigger] recorded_commands(
                    record.commands,
                    record.calibration[index].fan,
                    first,
                    last,
                ) == expected_commands(events)
                &&& forall|i: int|
                    0 <= i < record.commands.len() ==> {
                        let command = #[trigger] record.commands[i];
                        let at = command.timestamp.monotonic_millis;
                        &&& command.field is Pwm && command.value != 255 ==> command.fan == fan
                            && first <= at <= last
                        &&& command.field is Enable && at <= last ==> command.value == 1
                        &&& command.field is Enable && at > last ==> command.value == 2
                    }
            },
{
    let fan = record.calibration[index].fan;
    let events = record.calibration[index].protocol_checkpoint->0.events;
    let times = observed_times(events);
    let (first, last) = choose|first: u64, last: u64| #[trigger]
        crate::evidence_rules::bounds_times(times, first, last) && {
            &&& record.started_at.monotonic_millis <= first
            &&& last <= record.completed_at.monotonic_millis
            &&& recorded_commands(record.commands, fan, first, last) == expected_commands(events)
            &&& forall|i: int|
                0 <= i < record.commands.len()
                    ==> crate::evidence_rules::command_fits_calibration(
                    #[trigger] record.commands[i],
                    fan,
                    first,
                    last,
                )
        };
    assert(first <= last) by {
        let k = choose|k: int| 0 <= k < times.len() && times[k] == first;
        assert(times[k] <= last);
    }
    assert(recorded_commands(record.commands, fan, first, last) == expected_commands(events));
}

} // verus!
