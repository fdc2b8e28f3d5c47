//! The live lifecycle qualification run, up to the reboot and after it.

use vstd::prelude::*;
use vstd::string::*;
use crate::evidence::{
    blank_record, EnvelopeModel, EvidenceFan, EvidenceRecord, EvidenceTimestamp,
    EvidenceValidationError, FanEndpointIdentitiesEvidence, OutcomeModel,
    QualificationEnvelopeIdentityV1, RecordModel, RunOutcomeEvidence, RunOutcomeStatus,
    EVIDENCE_SCHEMA_VERSION_V2,
};
use crate::evidence_rules::{identity_error, is_valid, validate_identity, validation_error, verdict};
use crate::lifecycle::{
    approved_case, case_at, identity_has_nonblank_character, shows_something, CaseResultModel,
    LiveLifecycleCase, LiveLifecycleCaseObservation, LiveLifecycleCaseResult,
    LiveLifecycleFanAutoObservation, LiveLifecycleObserved, LiveLifecycleRebootArmObservation,
    LiveLifecycleRebootContinuation,
};
use crate::lifecycle_calls::{action_calls, calls_after, LifecycleAction, LifecycleCall};
use crate::lifecycle_checkpoint::{
    checkpoint_error, continues, prefix_passed, results, waiting_run_passed_its_prefix,
    LifecycleRun, LiveLifecycleCheckpoint,
};
use crate::lifecycle_gate::{
    identities_of_gate, later_timestamp, strictly_after_timestamp, AutoGate, FanReading,
    GateContext,
};
use crate::lifecycle_reboot::RebootRun;
use crate::lifecycle_rules::{pair_rebinds, FanIdentities};
use crate::lifecycle_steps::{
    after_case, after_case_request, after_gate, after_recovery, case_observation, judge_case,
    CaseWindow, LifecycleModel,
};
use crate::lifecycle_contents::{case_list, is_prefix};
use crate::matched_workload::{boundary_of, not_earlier};
use crate::run_log::{fault_list, first_detail, first_fault_detail, readback_list, transition_list};
use crate::text::{identifier, is_identifier, is_lower_hex, join, lower_hex, same_text};
use crate::trace::{effects, goes_on, ran, Trace};
use crate::thermal::{flat, flat_slopes};
use crate::lifecycle_fold::{
    after_own_gate, are_cases, arm_calls, armed_case, boot_was_asked_again, case_calls, case_record,
    case_went, case_window, cases_went, ended_before_reboot, fresh_lifecycle, gate_was_read,
    goes_on_with_cases, initial_gate_went, lemma_no_case_went, lemma_one_more_case_went,
    lifecycle_state, prefix_came_to, prefix_went, reading_calls, reboot_came_to, reboot_record,
    reboot_went, reboot_window, recovery_went, resume_calls, resumed_case, start_state, CaseAnswers,
    LifecycleState, RebootAnswers,
};

verus! {

broadcast use {
    vstd::string::group_string_axioms,
    crate::trace::group_effects,
    crate::lifecycle_calls::group_lifecycle_calls,
};

/// What a lifecycle qualification asks of the machine and of its operator.
pub trait LiveLifecycleEnvironment {
    /// What was asked so far, with what came back.
    spec fn history(&self) -> Seq<LifecycleCall>;

    fn timestamp(&mut self) -> (answer: EvidenceTimestamp)
        ensures
            final(self).history() == old(self).history().push(
                LifecycleCall::Timestamp { answer },
            ),
    ;

    /// Returns the coordinator-observed identity of the currently running boot.
    fn current_boot_id(&mut self) -> (answer: Result<String, String>)
        ensures
            final(self).history() == old(self).history().push(
                LifecycleCall::CurrentBootId { answer },
            ),
    ;

    /// Performs exactly the guided, non-destructive non-reboot case requested by the
    /// runner and returns a newly collected observation.
    ///
    /// A persisted outer coordinator must resume the reboot case after boot and provide
    /// distinct pre-boot and post-boot IDs. This core stage never initiates a reboot.
    fn run_case(
        &mut self,
        case: LiveLifecycleCase,
    ) -> (answer: Result<LiveLifecycleObserved<LiveLifecycleCaseObservation>, String>)
        ensures
            final(self).history() == old(self).history().push(
                LifecycleCall::RunCase { case, answer },
            ),
    ;

    /// Signal-safe containment after every non-reboot case, including harness failure.
    fn restore_after_case(
        &mut self,
        case: LiveLifecycleCase,
    ) -> (answer: Result<LiveLifecycleObserved<EvidenceTimestamp>, String>)
        ensures
            final(self).history() == old(self).history().push(
                LifecycleCall::RestoreAfterCase { case, answer },
            ),
    ;

    /// Resumes the persisted reboot case without arming Custom control.
    fn resume_after_reboot(
        &mut self,
    ) -> (answer: Result<LiveLifecycleObserved<LiveLifecycleRebootContinuation>, String>)
        ensures
            final(self).history() == old(self).history().push(
                LifecycleCall::ResumeAfterReboot { answer },
            ),
    ;

    /// Arms the post-boot controller only after the runner independently confirms Auto.
    fn arm_after_reboot(
        &mut self,
    ) -> (answer: Result<LiveLifecycleObserved<LiveLifecycleRebootArmObservation>, String>)
        ensures
            final(self).history() == old(self).history().push(
                LifecycleCall::ArmAfterReboot { answer },
            ),
    ;

    /// Stops the post-boot controller and restores firmware ownership before the terminal gate.
    fn restore_after_reboot(
        &mut self,
    ) -> (answer: Result<LiveLifecycleObserved<EvidenceTimestamp>, String>)
        ensures
            final(self).history() == old(self).history().push(
                LifecycleCall::RestoreAfterReboot { answer },
            ),
    ;

    /// Reads one fan's enable endpoint. The runner always calls this once for each fan.
    fn confirm_firmware_auto(
        &mut self,
        fan: EvidenceFan,
    ) -> (answer: Result<LiveLifecycleFanAutoObservation, String>)
        ensures
            final(self).history() == old(self).history().push(
                LifecycleCall::ConfirmFirmwareAuto { fan, answer },
            ),
    ;
}

/// Why a lifecycle qualification cannot run, or its record cannot stand.
#[derive(Debug)]
pub enum LiveLifecyclePlanError {
    InvalidEnvelope(EvidenceValidationError),
    InvalidCheckpoint(String),
    InvalidGeneratedEvidence(EvidenceValidationError),
}

impl LiveLifecyclePlanError {
    /// The text of the message.
    pub open spec fn text(self) -> Seq<char> {
        match self {
            LiveLifecyclePlanError::InvalidEnvelope(error) => "invalid qualification envelope: "@
                + error.text(),
            LiveLifecyclePlanError::InvalidCheckpoint(error) => "invalid lifecycle checkpoint: "@
                + error@,
            LiveLifecyclePlanError::InvalidGeneratedEvidence(error) =>
                "invalid generated lifecycle evidence: "@ + error.text(),
        }
    }

    /// The message shown to an operator.
    pub fn message(&self) -> (text: String)
        ensures
            text@ == self.text(),
    {
        match self {
            LiveLifecyclePlanError::InvalidEnvelope(error) => join(
                "invalid qualification envelope: ",
                error.message().as_str(),
            ),
            LiveLifecyclePlanError::InvalidCheckpoint(error) => join(
                "invalid lifecycle checkpoint: ",
                error.as_str(),
            ),
            LiveLifecyclePlanError::InvalidGeneratedEvidence(error) => join(
                "invalid generated lifecycle evidence: ",
                error.message().as_str(),
            ),
        }
    }
}

/// Whether a record is lifecycle evidence that a report can carry.
pub open spec fn is_lifecycle_record(record: RecordModel) -> bool {
    &&& record.schema_version == 2
    &&& record.stage == "live-lifecycle"@
    &&& record.live_lifecycle_cases is Some
}

/// The outcome of a lifecycle qualification.
pub struct LiveLifecycleReport {
    record: EvidenceRecord,
    actions: Ghost<Seq<LifecycleAction>>,
}

impl LiveLifecycleReport {
    /// The contents of the record.
    pub closed spec fn evidence(&self) -> RecordModel {
        self.record@
    }

    /// What this process did to the machine.
    pub closed spec fn actions(&self) -> Seq<LifecycleAction> {
        self.actions@
    }

    #[verifier::type_invariant]
    closed spec fn carries_lifecycle(self) -> bool {
        is_lifecycle_record(self.record@)
    }

    /// Takes a record, if it is valid lifecycle evidence.
    pub fn from_record(record: EvidenceRecord) -> (result: Result<LiveLifecycleReport, String>)
        ensures
            if !is_lifecycle_record(record@) {
                result is Err && result->Err_0@
                    == "live lifecycle report requires validated schema-v2 live-lifecycle evidence"@
            } else {
                match validation_error(record@, flat()) {
                    Some(error) => result is Err && result->Err_0@ == error.text(),
                    None => result is Ok && result->Ok_0.evidence() == record@,
                }
            },
    {
        if record.schema_version != EVIDENCE_SCHEMA_VERSION_V2 || !same_text(
            record.stage.as_str(),
            "live-lifecycle",
        ) || record.live_lifecycle_cases.is_none() {
            return Err(
                "live lifecycle report requires validated schema-v2 live-lifecycle evidence".to_owned(),
            );
        }
        match record.validate(flat_slopes()) {
            Ok(()) => Ok(LiveLifecycleReport { record, actions: Ghost(Seq::empty()) }),
            Err(error) => Err(error.message()),
        }
    }

    pub fn record(&self) -> (record: &EvidenceRecord)
        ensures
            record@ == self.evidence(),
    {
        &self.record
    }

    pub fn cases(&self) -> (cases: &Vec<LiveLifecycleCaseResult>)
        ensures
            self.evidence().live_lifecycle_cases == Some(results(cases@)),
    {
        proof {
            use_type_invariant(self);
        }
        self.record.live_lifecycle_cases.as_ref().unwrap()
    }

    pub fn accepted(&self) -> (yes: bool)
        ensures
            yes == (self.evidence().outcome.status == RunOutcomeStatus::Passed),
    {
        self.record.outcome.status == RunOutcomeStatus::Passed
    }

    pub fn validate(&self) -> (result: Result<(), EvidenceValidationError>)
        ensures
            result == verdict(validation_error(self.evidence(), flat())),
    {
        self.record.validate(flat_slopes())
    }

    pub fn into_record(self) -> (record: EvidenceRecord)
        ensures
            record@ == self.evidence(),
    {
        self.record
    }
}

impl Clone for LiveLifecycleReport {
    fn clone(&self) -> (copy: LiveLifecycleReport)
        ensures
            copy.evidence() == self.evidence(),
            copy.actions() == self.actions(),
    {
        proof {
            use_type_invariant(self);
        }
        LiveLifecycleReport { record: self.record.clone(), actions: self.actions }
    }
}

/// How far a lifecycle qualification came.
pub enum LiveLifecycleProgress {
    AwaitingReboot(Box<LiveLifecycleCheckpoint>),
    Complete(Box<LiveLifecycleReport>),
}

/// Whether every action that could take a fan over followed a confirmation that both fans were in
/// Firmware Auto, and was itself followed by a restoration and another confirmation.
pub open spec fn every_action_is_contained(actions: Seq<LifecycleAction>) -> bool {
    forall|i: int| 0 <= i < actions.len() ==> action_is_contained(actions, i)
}

/// Whether one action is contained.
pub open spec fn action_is_contained(actions: Seq<LifecycleAction>, i: int) -> bool {
    match actions[i] {
        LifecycleAction::Attempt { case, .. } => {
            &&& i > 0 && is_confirmed_gate(actions[i - 1])
            &&& i + 2 < actions.len() && (actions[i + 1] matches LifecycleAction::Contain {
                case: contained,
                ..
            } && contained == case) && actions[i + 2] is Gate
        },
        LifecycleAction::Gate { confirmed, cpu, gpu } => confirmed ==> reads_auto(cpu)
            && reads_auto(gpu),
        LifecycleAction::Resume { .. } => i + 1 < actions.len() && actions[i + 1] is Gate,
        LifecycleAction::Arm { .. } => {
            &&& i > 0 && is_confirmed_gate(actions[i - 1])
            &&& i + 2 < actions.len() && actions[i + 1] is ContainReboot && actions[i + 2] is Gate
        },
        _ => true,
    }
}

/// Whether an answer is a fresh reading of Firmware Auto.
pub open spec fn reads_auto(answer: Result<LiveLifecycleFanAutoObservation, String>) -> bool {
    answer matches Ok(observed) && observed.fresh && observed.enable_readback == Some(2u32)
}

/// Whether an action found both fans in Firmware Auto.
pub open spec fn is_confirmed_gate(action: LifecycleAction) -> bool {
    action matches LifecycleAction::Gate { confirmed, .. } && confirmed
}

/// Whether the last action found both fans in Firmware Auto.
pub open spec fn ends_confirmed(actions: Seq<LifecycleAction>) -> bool {
    actions.len() > 0 && is_confirmed_gate(actions.last())
}

/// Whether no action belongs to the reboot case.
pub open spec fn stays_before_reboot(actions: Seq<LifecycleAction>) -> bool {
    forall|i: int|
        0 <= i < actions.len() ==> #[trigger] actions[i] is Attempt || actions[i] is Contain
            || actions[i] is Gate
}

/// Whether actions are exactly those of the reboot case: it is resumed and both fans are read, the
/// controller is armed at most once and only where both were found in Firmware Auto, firmware
/// ownership is restored once, and both fans are read again.
pub open spec fn are_reboot_actions(actions: Seq<LifecycleAction>) -> bool {
    let count = actions.len();
    &&& count == 4 || count == 5
    &&& actions[0] is Resume
    &&& actions[1] is Gate
    &&& count == 5 ==> actions[2] is Arm && is_confirmed_gate(actions[1])
    &&& actions[count - 2] is ContainReboot
    &&& actions[count - 1] is Gate
    &&& every_action_is_contained(actions)
}

/// Whether the reboot case was resumed, armed and restored, and each of these succeeded.
pub open spec fn reboot_was_carried_out(actions: Seq<LifecycleAction>) -> bool {
    &&& actions.len() == 5
    &&& actions[0] matches LifecycleAction::Resume { answer } && answer is Ok
    &&& actions[2] matches LifecycleAction::Arm { answer } && answer is Ok
    &&& actions[3] matches LifecycleAction::ContainReboot { answer } && answer is Ok
    &&& is_confirmed_gate(actions[4])
}

/// Whether a case on record is one that was performed, restored and gated at a place: it holds the
/// observation that came back, and passed only where all three succeeded.
pub open spec fn case_was_attempted(
    actions: Seq<LifecycleAction>,
    place: int,
    result: CaseResultModel,
) -> bool {
    &&& actions[place] matches LifecycleAction::Attempt { case, answer }
    &&& case == result.case
    &&& result.observation == case_observation(answer)
    &&& actions[place + 1] matches LifecycleAction::Contain { answer: contained, .. }
    &&& actions[place + 2] is Gate
    &&& result.passed ==> answer is Ok && contained is Ok && is_confirmed_gate(actions[place + 2])
}

/// Whether actions are exactly those of the cases on record: both fans are read, a failure of that is
/// answered by a restoration and another reading, and each case takes three actions after that.
pub open spec fn cases_were_attempted(
    actions: Seq<LifecycleAction>,
    cases: Seq<CaseResultModel>,
) -> bool {
    let opening = actions.len() - 3 * cases.len();
    &&& opening == 1 || (opening == 3 && actions[1] is Contain && actions[2] is Gate
        && !is_confirmed_gate(actions[0]))
    &&& actions[0] is Gate
    &&& forall|k: int|
        0 <= k < cases.len() ==> case_was_attempted(actions, opening + 3 * k, #[trigger] cases[k])
}

/// One more case keeps actions those of the cases on record.
proof fn lemma_one_more_case(
    actions: Seq<LifecycleAction>,
    cases: Seq<CaseResultModel>,
    longer: Seq<LifecycleAction>,
    result: CaseResultModel,
)
    requires
        cases_were_attempted(actions, cases),
        longer.len() == actions.len() + 3,
        goes_on(actions, longer),
        case_was_attempted(longer, actions.len() as int, result),
    ensures
        cases_were_attempted(longer, cases.push(result)),
{
    let after = cases.push(result);
    let opening = actions.len() - 3 * cases.len();
    assert(longer[0] == actions[0]);
    if opening == 3 {
        assert(longer[1] == actions[1]);
        assert(longer[2] == actions[2]);
    }
    assert forall|k: int| 0 <= k < after.len() implies case_was_attempted(
        longer,
        opening + 3 * k,
        #[trigger] after[k],
    ) by {
        if k < cases.len() {
            assert(case_was_attempted(actions, opening + 3 * k, cases[k]));
            assert(longer[opening + 3 * k] == actions[opening + 3 * k]);
            assert(longer[opening + 3 * k + 1] == actions[opening + 3 * k + 1]);
            assert(longer[opening + 3 * k + 2] == actions[opening + 3 * k + 2]);
        }
    }
}

/// Reads one fan's enable endpoint.
fn read_fan<E>(
    environment: &mut E,
    trace: &mut Trace<'_, E, LifecycleCall>,
    fan: EvidenceFan,
) -> (reading: FanReading) where E: LiveLifecycleEnvironment + ?Sized
    requires
        old(trace).follows(&*old(environment)),
    ensures
        final(trace).follows(&*final(environment)),
        final(trace).start() == old(trace).start(),
        final(trace).calls() == old(trace).calls().push(
            LifecycleCall::Timestamp { answer: reading.requested_at },
        ).push(LifecycleCall::ConfirmFirmwareAuto { fan, answer: reading.result }).push(
            LifecycleCall::Timestamp { answer: reading.completed_at },
        ),
{
    let requested_at = trace.timestamp(environment);
    let result = trace.confirm_firmware_auto(environment, fan);
    let completed_at = trace.timestamp(environment);
    FanReading { requested_at, result, completed_at }
}

/// Reads both fans and records what that confirms.
fn confirm_auto_gate<E>(
    environment: &mut E,
    trace: &mut Trace<'_, E, LifecycleCall>,
    run: &mut LifecycleRun,
    context: &GateContext,
) -> (gate: (
    AutoGate,
    Ghost<LifecycleAction>,
)) where E: LiveLifecycleEnvironment + ?Sized
    requires
        old(trace).follows(&*old(environment)),
    ensures
        final(trace).follows(&*final(environment)),
        final(trace).start() == old(trace).start(),
        goes_on(old(trace).calls(), final(trace).calls()),
        effects(final(trace).calls()) == calls_after(effects(old(trace).calls()), gate.1@),
        gate.1@ is Gate,
        is_confirmed_gate(gate.1@) == gate.0.confirmed,
        action_is_contained(seq![gate.1@], 0),
        gate.0.confirmed ==> gate.0.auto_pair is Some,
        gate.0.confirmed ==> final(run)@.faults == old(run)@.faults,
        !gate.0.confirmed ==> final(run)@.faults.len() > old(run)@.faults.len(),
        unchanged_frame(old(run)@, final(run)@),
        is_prefix(old(run)@.readbacks, final(run)@.readbacks),
        final(run)@.transitions == old(run)@.transitions,
        final(run)@.cases == old(run)@.cases,
        final(run)@.expected == old(run)@.expected,
        final(run)@.final_auto_confirmed == old(run)@.final_auto_confirmed,
        gate_was_read(
            old(run)@,
            final(run)@,
            old(trace).calls(),
            final(trace).calls(),
            *context,
            gate.0,
        ),
{
    let cpu = read_fan(environment, trace, EvidenceFan::Cpu);
    let gpu = read_fan(environment, trace, EvidenceFan::Gpu);
    let ghost action = LifecycleAction::Gate {
        confirmed: crate::lifecycle_gate::gate_failure(*context, cpu, gpu) is None,
        cpu: cpu.result,
        gpu: gpu.result,
    };
    let gate = run.record_gate(context, cpu, gpu);
    assert(trace.calls() =~= old(trace).calls() + reading_calls(EvidenceFan::Cpu, cpu)
        + reading_calls(EvidenceFan::Gpu, gpu));
    assert(run@ == after_gate(old(run)@, *context, cpu, gpu));
    proof {
        crate::lifecycle_gate::confirmed_gate_reads_back_auto(
            old(run)@.faults,
            *context,
            cpu,
            gpu,
        );
        assert(run@.readbacks.take(old(run)@.readbacks.len() as int) =~= old(run)@.readbacks);
    }
    (gate, Ghost(action))
}

proof fn lemma_prefix_extends<T>(first: Seq<T>, second: Seq<T>, third: Seq<T>)
    requires
        is_prefix(first, second),
        is_prefix(second, third),
    ensures
        is_prefix(first, third),
{
    assert forall|i: int| 0 <= i < first.len() implies third[i] == first[i] by {
        assert(second.take(first.len() as int)[i] == first[i]);
        assert(third.take(second.len() as int)[i] == second[i]);
    }
    assert(third.take(first.len() as int) =~= first);
}

/// Whether a state only adds to what another one recorded.
pub open spec fn extends(before: LifecycleModel, after: LifecycleModel) -> bool {
    is_prefix(before.readbacks, after.readbacks) && is_prefix(before.transitions, after.transitions)
}

/// Whether two states belong to the same qualification.
pub open spec fn unchanged_frame(
    before: LifecycleModel,
    after: LifecycleModel,
) -> bool {
    &&& after.envelope == before.envelope
    &&& after.binding == before.binding
    &&& after.started_at == before.started_at
    &&& after.boot_id == before.boot_id
}

/// Whether the cases of a run are the first approved ones, all but the last of them passed.
pub open spec fn cases_in_order(cases: Seq<CaseResultModel>) -> bool {
    &&& cases.len() <= 8
    &&& forall|i: int| 0 <= i < cases.len() ==> (#[trigger] cases[i]).case == approved_case(i)
    &&& forall|i: int| 0 <= i < cases.len() - 1 ==> (#[trigger] cases[i]).passed
}

/// Performs one case other than the reboot, restores firmware ownership and confirms it. Tells
/// whether the case passed.
fn perform_case<E>(
    environment: &mut E,
    trace: &mut Trace<'_, E, LifecycleCall>,
    run: &mut LifecycleRun,
    case: LiveLifecycleCase,
    actions: Ghost<Seq<LifecycleAction>>,
) -> (done: (bool, Ghost<Seq<LifecycleAction>>)) where E: LiveLifecycleEnvironment + ?Sized
    requires
        old(trace).follows(&*old(environment)),
        effects(old(trace).calls()) == action_calls(actions@),
        stays_before_reboot(actions@),
        old(run)@.expected is Some,
        every_action_is_contained(actions@),
        ends_confirmed(actions@),
        old(run)@.faults.len() == 0,
        old(run)@.final_auto_confirmed,
    ensures
        final(trace).follows(&*final(environment)),
        final(trace).start() == old(trace).start(),
        goes_on(old(trace).calls(), final(trace).calls()),
        effects(final(trace).calls()) == action_calls(done.1@),
        stays_before_reboot(done.1@),
        every_action_is_contained(done.1@),
        done.0 ==> ends_confirmed(done.1@),
        done.0 == (final(run)@.faults.len() == 0 && final(run)@.final_auto_confirmed),
        final(run)@.final_auto_confirmed <==> ends_confirmed(done.1@),
        final(run)@.expected is Some,
        unchanged_frame(old(run)@, final(run)@),
        final(run)@.cases.len() == old(run)@.cases.len() + 1,
        final(run)@.cases.drop_last() == old(run)@.cases,
        final(run)@.cases.last().case == case,
        final(run)@.cases.last().passed == done.0,
        done.1@.len() == actions@.len() + 3,
        goes_on(actions@, done.1@),
        case_was_attempted(done.1@, actions@.len() as int, final(run)@.cases.last()),
        case_went(old(run)@, final(run)@, old(trace).calls(), final(trace).calls(), case),
{
    let ghost before = run@;
    let ghost earlier = trace.calls();
    let asked_at = trace.timestamp(environment);
    let requested_at = strictly_after_timestamp(asked_at, run.last_event_at);
    run.record_case_request(case, requested_at);
    let begun_at = trace.timestamp(environment);
    let started_at = strictly_after_timestamp(begun_at, requested_at);
    let result = trace.run_case(environment, case);
    let ghost attempt = LifecycleAction::Attempt { case, answer: result };
    let completed_at = trace.timestamp(environment);
    let cleanup = trace.restore_after_case(environment, case);
    let ghost contained = LifecycleAction::Contain { case, answer: cleanup };
    let cleaned_at = trace.timestamp(environment);
    let window = CaseWindow { requested_at, started_at, completed_at, cleaned_at };
    let ghost answers = CaseAnswers {
        asked_at,
        begun_at,
        result,
        completed_at,
        cleanup,
        cleaned_at,
    };
    let ghost cleaned_calls = trace.calls();
    let ghost requested = run@;
    assert(cleaned_calls == case_calls(earlier, case, answers));
    assert(window == case_window(before, answers));
    let expected = run.expected_identities.as_ref().unwrap();
    let judgement = judge_case(case, result, cleanup, window, expected);
    let context = GateContext {
        not_before: judgement.ended_at,
        expected_identities: Some((expected.0.clone(), expected.1.clone())),
        boot_id: run.pre_reboot_boot_id.clone(),
        allow_clock_reset: false,
    };
    let (gate, gated_by) = confirm_auto_gate(environment, trace, run, &context);
    let ghost gated = run@;
    let ghost gated_calls = trace.calls();
    let left_raw = trace.timestamp(environment);
    let left_at = strictly_after_timestamp(left_raw, gate.completed_at);
    let last_event_at = later_timestamp(
        run.last_event_at,
        later_timestamp(left_at, gate.completed_at),
    );
    let rebound = if gate.confirmed {
        identities_of_gate(&gate)
    } else {
        None
    };
    let boot_id = run.pre_reboot_boot_id.clone();
    let passed = run.record_case(
        case,
        started_at,
        judgement.ended_at,
        judgement.observation,
        judgement.observer_attestations,
        judgement.error,
        boot_id.as_str(),
        gate.completed_at,
        left_at,
        last_event_at,
        rebound,
        gate.confirmed,
    );
    let ghost longer = actions@.push(attempt).push(contained).push(gated_by@);
    proof {
        reveal(case_went);
        assert(gate_was_read(
            after_case_request(before, case, case_window(before, answers).requested_at),
            gated,
            case_calls(earlier, case, answers),
            gated_calls,
            context,
            gate,
        ));
        assert(run@ == after_case(gated, case_record(before, case, answers, gate, left_raw)));
        assert forall|i: int| 0 <= i < longer.len() implies action_is_contained(longer, i) by {
            if i < actions@.len() {
                assert(longer[i] == actions@[i]);
                assert(action_is_contained(actions@, i));
            } else {
                assert(action_is_contained(seq![gated_by@], 0));
                assert(seq![gated_by@][0] == gated_by@);
            }
        }
        assert(run@.cases.drop_last() =~= old(run)@.cases);
    }
    (passed, Ghost(longer))
}

/// Continues the reboot case after the reboot. The controller is armed only where both fans were
/// just found in Firmware Auto.
fn perform_reboot<E>(
    environment: &mut E,
    trace: &mut Trace<'_, E, LifecycleCall>,
    run: &mut LifecycleRun,
) -> (done: (bool, Ghost<Seq<LifecycleAction>>)) where E: LiveLifecycleEnvironment + ?Sized
    requires
        old(trace).follows(&*old(environment)),
        effects(old(trace).calls()) == Seq::<LifecycleCall>::empty(),
        old(run)@.expected is Some,
        old(run)@.faults.len() == 0,
    ensures
        final(trace).follows(&*final(environment)),
        final(trace).start() == old(trace).start(),
        goes_on(old(trace).calls(), final(trace).calls()),
        effects(final(trace).calls()) == action_calls(done.1@),
        are_reboot_actions(done.1@),
        every_action_is_contained(done.1@),
        done.0 == (final(run)@.faults.len() == 0 && final(run)@.final_auto_confirmed),
        final(run)@.final_auto_confirmed <==> ends_confirmed(done.1@),
        unchanged_frame(old(run)@, final(run)@),
        final(run)@.cases.len() == old(run)@.cases.len() + 1,
        final(run)@.cases.drop_last() == old(run)@.cases,
        final(run)@.cases.last().case == LiveLifecycleCase::Reboot,
        final(run)@.cases.last().passed == done.0,
        extends(old(run)@, final(run)@),
        done.1@.len() >= 3,
        done.1@[0] is Resume,
        done.1@[done.1@.len() - 2] is ContainReboot,
        done.1@.last() is Gate,
        done.0 ==> reboot_was_carried_out(done.1@),
        reboot_went(old(run)@, final(run)@, old(trace).calls(), final(trace).calls()),
{
    let ghost before = run@;
    let ghost earlier = trace.calls();
    let case = LiveLifecycleCase::Reboot;
    let asked_at = trace.timestamp(environment);
    let requested_at = strictly_after_timestamp(asked_at, run.last_event_at);
    run.record_case_request(case, requested_at);
    let begun_at = trace.timestamp(environment);
    let started_at = strictly_after_timestamp(begun_at, requested_at);
    let result = trace.resume_after_reboot(environment);
    let ghost resumed = LifecycleAction::Resume { answer: result };
    let completed_at = trace.timestamp(environment);
    let current_boot = if result.is_ok() {
        Some(trace.current_boot_id(environment))
    } else {
        None
    };
    let ghost mut answers = RebootAnswers {
        asked_at,
        begun_at,
        result,
        completed_at,
        boot: current_boot,
        armed: arbitrary(),
        armed_at: completed_at,
        restored: arbitrary(),
        restored_at: completed_at,
        left_at: completed_at,
    };
    let ghost resumed_calls = trace.calls();
    assert(resumed_calls == resume_calls(earlier, answers));
    let mut reboot = RebootRun::begin(
        result,
        current_boot,
        started_at,
        completed_at,
        run.pre_reboot_boot_id.as_str(),
    );
    let boot_id = reboot.boot_id();
    let ghost resumed_as = reboot@;
    assert(resumed_as == resumed_case(before, answers));
    let ghost requested = run@;
    let context = GateContext {
        not_before: completed_at,
        expected_identities: None,
        boot_id: boot_id.clone(),
        allow_clock_reset: true,
    };
    let (gate, gated_by) = confirm_auto_gate(environment, trace, run, &context);
    let ghost gated = run@.readbacks;
    let ghost gated_run = run@;
    let ghost gated_calls = trace.calls();
    let ghost first_gate = gate;
    let ghost mut actions = Seq::<LifecycleAction>::empty().push(resumed).push(gated_by@);
    let confirmed = gate.confirmed;
    let gate_at = gate.completed_at;
    let found = identities_of_gate(&gate);
    let may_arm = match &gate.auto_pair {
        Some(pair) => confirmed && reboot.error.is_none() && pair_rebinds(
            pair,
            run.expected_identities.as_ref(),
        ),
        None => false,
    };
    assert(may_arm == crate::lifecycle_fold::may_arm(resumed_as, first_gate, before.expected));
    if may_arm {
        let armed = trace.arm_after_reboot(environment);
        proof {
            actions = actions.push(LifecycleAction::Arm { answer: armed });
        }
        let armed_at = trace.timestamp(environment);
        proof {
            answers = RebootAnswers { armed, armed_at, ..answers };
        }
        reboot.record_arm(gate.auto_pair.unwrap(), gate_at, armed_at, armed);
    } else {
        reboot.record_refused_arm(confirmed);
    }
    let ghost armed_as = reboot@;
    let restored = trace.restore_after_reboot(environment);
    let ghost contained = LifecycleAction::ContainReboot { answer: restored };
    let completed_at = trace.timestamp(environment);
    proof {
        answers = RebootAnswers { restored, restored_at: completed_at, ..answers };
    }
    let ghost restored_calls = trace.calls();
    let restored_at = reboot.record_restore(completed_at, restored);
    let terminal_context = GateContext {
        not_before: restored_at,
        expected_identities: match &found {
            Some(pair) => Some((pair.0.clone(), pair.1.clone())),
            None => None,
        },
        boot_id: boot_id.clone(),
        allow_clock_reset: true,
    };
    let (terminal, terminated_by) = confirm_auto_gate(environment, trace, run, &terminal_context);
    let ghost ended_run = run@;
    let ghost ended_calls = trace.calls();
    let ghost last_gate = terminal;
    let terminal_confirmed = terminal.confirmed;
    let ended_at = terminal.completed_at;
    reboot.record_last_gate(terminal.auto_pair, terminal_confirmed, started_at, ended_at);
    let left_at = trace.timestamp(environment);
    proof {
        answers = RebootAnswers { left_at, ..answers };
    }
    let last_event_at = strictly_after_timestamp(left_at, run.last_event_at);
    let rebound = if confirmed {
        found
    } else {
        None
    };
    let passed = run.record_case(
        case,
        started_at,
        ended_at,
        reboot.observation,
        reboot.observer_attestations,
        reboot.error,
        boot_id.as_str(),
        gate_at,
        left_at,
        last_event_at,
        rebound,
        terminal_confirmed,
    );
    let ghost longer = actions.push(contained).push(terminated_by@);
    proof {
        reveal(reboot_went);
        assert(resumed_as == resumed_case(before, answers));
        assert(armed_as == armed_case(resumed_as, first_gate, before.expected, answers));
        assert(resumed_calls == resume_calls(earlier, answers));
        assert(restored_calls == arm_calls(gated_calls, may_arm, answers));
        assert(gate_was_read(
            after_case_request(
                before,
                LiveLifecycleCase::Reboot,
                reboot_window(before, answers).0,
            ),
            gated_run,
            resume_calls(earlier, answers),
            gated_calls,
            context,
            first_gate,
        ));
        assert(gate_was_read(
            gated_run,
            ended_run,
            arm_calls(
                gated_calls,
                crate::lifecycle_fold::may_arm(
                    resumed_case(before, answers),
                    first_gate,
                    before.expected,
                ),
                answers,
            ),
            ended_calls,
            terminal_context,
            last_gate,
        ));
        assert(run@ == after_case(
            ended_run,
            reboot_record(before, answers, first_gate, last_gate),
        ));
        assert(run@.cases.drop_last() =~= old(run)@.cases);
        lemma_prefix_extends(old(run)@.readbacks, gated, run@.readbacks);
        assert(run@.transitions.take(old(run)@.transitions.len() as int)
            =~= old(run)@.transitions);
        assert(seq![gated_by@][0] == gated_by@);
        assert(seq![terminated_by@][0] == terminated_by@);
        assert forall|i: int| 0 <= i < longer.len() implies action_is_contained(longer, i) by {}
    }
    (passed, Ghost(longer))
}

/// Whether every case passed.
fn every_case_passed(cases: &Vec<LiveLifecycleCaseResult>) -> (yes: bool)
    ensures
        yes == forall|i: int| 0 <= i < results(cases@).len() ==> (#[trigger] results(
            cases@,
        )[i]).passed,
{
    let ghost models = results(cases@);
    let mut i: usize = 0;
    while i < cases.len()
        invariant
            i <= cases.len(),
            models == results(cases@),
            forall|k: int| 0 <= k < i ==> (#[trigger] models[k]).passed,
        decreases cases.len() - i,
    {
        assert(models[i as int] == cases@[i as int]@);
        if !cases[i].passed() {
            return false;
        }
        i = i + 1;
    }
    true
}

/// Whether a run passed as a whole.
pub open spec fn lifecycle_is_accepted(run: LifecycleRun) -> bool {
    let cases = results(run.cases@);
    &&& cases.len() == 8
    &&& forall|i: int| 0 <= i < cases.len() ==> (#[trigger] cases[i]).passed
    &&& run.final_auto_confirmed
    &&& run.faults@.len() == 0
}

/// The record of a run that has ended.
pub open spec fn ended_record(run: LifecycleRun, completed_at: EvidenceTimestamp) -> RecordModel {
    let accepted = lifecycle_is_accepted(run);
    RecordModel {
        readbacks: run.readbacks@,
        state_transitions: run.transitions@,
        faults: run.faults@,
        live_lifecycle_cases: Some(results(run.cases@)),
        prerequisite_binding_sha256: Some(run.prerequisite_binding_sha256@),
        ..blank_record(
            run.envelope@,
            "live-lifecycle"@,
            run.started_at,
            completed_at,
            OutcomeModel {
                status: if accepted {
                    RunOutcomeStatus::Passed
                } else {
                    RunOutcomeStatus::Failed
                },
                reason: if accepted {
                    "all approved live lifecycle cases passed with Firmware Auto between cases"@
                } else {
                    first_detail(
                        fault_list(run.faults@),
                        "live lifecycle qualification did not pass its initial Auto gate"@,
                    )
                },
                another_passing_run_required: !accepted,
                final_firmware_auto_confirmed: run.final_auto_confirmed,
            },
        )
    }
}

/// Puts an ended run on record.
pub fn assemble_lifecycle_record(run: LifecycleRun, completed_at: EvidenceTimestamp) -> (record:
    EvidenceRecord)
    ensures
        record@ == ended_record(run, completed_at),
{
    let accepted = run.cases.len() == 8 && every_case_passed(&run.cases) && run.final_auto_confirmed
        && run.faults.len() == 0;
    let reason = if accepted {
        "all approved live lifecycle cases passed with Firmware Auto between cases".to_owned()
    } else {
        first_fault_detail(
            &run.faults,
            "live lifecycle qualification did not pass its initial Auto gate",
        )
    };
    let mut record = EvidenceRecord::complete_v2(
        run.envelope,
        "live-lifecycle",
        run.started_at,
        completed_at,
        RunOutcomeEvidence {
            status: if accepted {
                RunOutcomeStatus::Passed
            } else {
                RunOutcomeStatus::Failed
            },
            reason,
            another_passing_run_required: !accepted,
            final_firmware_auto_confirmed: run.final_auto_confirmed,
        },
    );
    record.readbacks = run.readbacks;
    record.state_transitions = run.transitions;
    record.faults = run.faults;
    record.live_lifecycle_cases = Some(run.cases);
    record.prerequisite_binding_sha256 = Some(run.prerequisite_binding_sha256);
    record
}

/// Whether six endpoint identities each show something and all differ.
pub open spec fn endpoints_are_valid(endpoints: FanEndpointIdentitiesEvidence) -> bool {
    let all = endpoint_names(endpoints);
    &&& forall|i: int| 0 <= i < all.len() ==> shows_something(#[trigger] all[i])
    &&& forall|i: int, j: int| 0 <= i < j < all.len() ==> #[trigger] all[i] != #[trigger] all[j]
}

/// The six endpoint identities.
pub open spec fn endpoint_names(endpoints: FanEndpointIdentitiesEvidence) -> Seq<Seq<char>> {
    seq![
        endpoints.cpu_pwm@,
        endpoints.cpu_enable@,
        endpoints.cpu_tachometer@,
        endpoints.gpu_pwm@,
        endpoints.gpu_enable@,
        endpoints.gpu_tachometer@,
    ]
}

fn text_is_new(names: &Vec<&str>, text: &str) -> (yes: bool)
    ensures
        yes == (shows_something(text@) && forall|i: int|
            0 <= i < names@.len() ==> (#[trigger] names@[i])@ != text@),
{
    if !identity_has_nonblank_character(text) {
        return false;
    }
    let mut i: usize = 0;
    while i < names.len()
        invariant
            i <= names.len(),
            forall|k: int| 0 <= k < i ==> (#[trigger] names@[k])@ != text@,
        decreases names.len() - i,
    {
        if same_text(names[i], text) {
            return false;
        }
        i = i + 1;
    }
    true
}

impl FanEndpointIdentitiesEvidence {
    /// Decides [`endpoints_are_valid`].
    pub fn is_valid(&self) -> (yes: bool)
        ensures
            yes == endpoints_are_valid(*self),
    {
        let ghost all = endpoint_names(*self);
        let mut names: Vec<&str> = Vec::new();
        let mut valid = true;
        let mut i: usize = 0;
        while i < 6
            invariant
                i <= 6,
                all == endpoint_names(*self),
                names@.len() == i,
                forall|k: int| 0 <= k < i ==> (#[trigger] names@[k])@ == all[k],
                valid == ((forall|k: int| 0 <= k < i ==> shows_something(#[trigger] all[k]))
                    && forall|j: int, k: int|
                    0 <= j < k < i ==> #[trigger] all[j] != #[trigger] all[k]),
            decreases 6 - i,
        {
            let text = if i == 0 {
                self.cpu_pwm.as_str()
            } else if i == 1 {
                self.cpu_enable.as_str()
            } else if i == 2 {
                self.cpu_tachometer.as_str()
            } else if i == 3 {
                self.gpu_pwm.as_str()
            } else if i == 4 {
                self.gpu_enable.as_str()
            } else {
                self.gpu_tachometer.as_str()
            };
            assert(text@ == all[i as int]);
            let fresh = text_is_new(&names, text);
            proof {
                if !fresh && shows_something(text@) {
                    let k = choose|k: int| 0 <= k < names@.len() && (#[trigger] names@[k])@ == text@;
                    assert(all[k] == all[i as int]);
                }
                if fresh {
                    assert forall|k: int| 0 <= k < i implies all[k] != all[i as int] by {
                        assert(names@[k]@ != text@);
                    }
                }
            }
            valid = valid && fresh;
            names.push(text);
            i = i + 1;
        }
        valid
    }
}

/// Whether an outcome is what the record that a run left must give: the report of it where it is
/// valid evidence, and otherwise why it is not.
pub open spec fn is_lifecycle_outcome(
    result: Result<LiveLifecycleReport, LiveLifecyclePlanError>,
    record: RecordModel,
    actions: Seq<LifecycleAction>,
) -> bool {
    match result {
        Ok(report) => report.evidence() == record && report.actions() == actions && is_valid(
            record,
            flat(),
        ),
        Err(LiveLifecyclePlanError::InvalidGeneratedEvidence(reason)) => validation_error(
            record,
            flat(),
        ) == Some(reason),
        Err(_) => false,
    }
}

/// Ends a run and puts it on record.
fn finish_lifecycle<E>(
    environment: &mut E,
    trace: &mut Trace<'_, E, LifecycleCall>,
    run: LifecycleRun,
    actions: Ghost<Seq<LifecycleAction>>,
) -> (result: Result<LiveLifecycleReport, LiveLifecyclePlanError>) where
    E: LiveLifecycleEnvironment + ?Sized,

    requires
        old(trace).follows(&*old(environment)),
    ensures
        final(trace).follows(&*final(environment)),
        final(trace).start() == old(trace).start(),
        goes_on(old(trace).calls(), final(trace).calls()),
        effects(final(trace).calls()) == effects(old(trace).calls()),
        exists|answer: EvidenceTimestamp|
            {
                &&& final(trace).calls() == old(trace).calls().push(
                    LifecycleCall::Timestamp { answer },
                )
                &&& #[trigger] is_lifecycle_outcome(
                    result,
                    ended_record(run, boundary_of(run.last_event_at, answer)),
                    actions@,
                )
            },
{
    let ended_at = trace.timestamp(environment);
    let completed_at = not_earlier(run.last_event_at, ended_at);
    let record = assemble_lifecycle_record(run, completed_at);
    let result = match record.validate(flat_slopes()) {
        Ok(()) => Ok(LiveLifecycleReport { record, actions }),
        Err(error) => Err(LiveLifecyclePlanError::InvalidGeneratedEvidence(error)),
    };
    assert(is_lifecycle_outcome(
        result,
        ended_record(run, boundary_of(run.last_event_at, ended_at)),
        actions@,
    ));
    result
}

/// Performs the cases before the reboot, as long as each passes.
fn perform_prefix<E>(
    environment: &mut E,
    trace: &mut Trace<'_, E, LifecycleCall>,
    run: &mut LifecycleRun,
    actions: Ghost<Seq<LifecycleAction>>,
) -> (done: Ghost<Seq<LifecycleAction>>) where E: LiveLifecycleEnvironment + ?Sized
    requires
        old(trace).follows(&*old(environment)),
        effects(old(trace).calls()) == action_calls(actions@),
        stays_before_reboot(actions@),
        old(run)@.expected is Some,
        old(run)@.cases.len() == 0,
        cases_were_attempted(actions@, old(run)@.cases),
        every_action_is_contained(actions@),
        ends_confirmed(actions@),
        old(run)@.faults.len() == 0,
        old(run)@.final_auto_confirmed,
    ensures
        final(trace).follows(&*final(environment)),
        final(trace).start() == old(trace).start(),
        goes_on(old(trace).calls(), final(trace).calls()),
        effects(final(trace).calls()) == action_calls(done@),
        stays_before_reboot(done@),
        every_action_is_contained(done@),
        final(run)@.final_auto_confirmed <==> ends_confirmed(done@),
        unchanged_frame(old(run)@, final(run)@),
        cases_were_attempted(done@, final(run)@.cases),
        cases_in_order(final(run)@.cases),
        final(run)@.cases.len() <= 7,
        final(run)@.faults.len() == 0 && final(run)@.final_auto_confirmed
            ==> final(run)@.cases.len() == 7,
        cases_went(
            lifecycle_state(old(run)@, old(trace).calls()),
            lifecycle_state(final(run)@, final(trace).calls()),
        ),
{
    let ghost mut states: Seq<LifecycleState> = seq![lifecycle_state(run@, trace.calls())];
    proof {
        lemma_no_case_went(states[0]);
        assert(states =~= seq![states[0]]);
    }
    let mut done = actions;
    let mut passed = true;
    let mut i: usize = 0;
    while passed && i < 7
        invariant
            trace.follows(&*environment),
            trace.start() == old(trace).start(),
            goes_on(old(trace).calls(), trace.calls()),
            effects(trace.calls()) == action_calls(done@),
            stays_before_reboot(done@),
            i <= 7,
            passed ==> ends_confirmed(done@),
            passed == (run@.faults.len() == 0 && run@.final_auto_confirmed),
            every_action_is_contained(done@),
            run@.final_auto_confirmed <==> ends_confirmed(done@),
            run@.expected is Some,
            unchanged_frame(old(run)@, run@),
            run@.cases.len() == i,
            cases_were_attempted(done@, run@.cases),
            cases_in_order(run@.cases),
            are_cases(states),
            states.len() == i + 1,
            states[0] == lifecycle_state(old(run)@, old(trace).calls()),
            states.last() == lifecycle_state(run@, trace.calls()),
            passed ==> forall|k: int| 0 <= k < run@.cases.len() ==> (#[trigger] run@.cases[k]).passed,
        decreases 7 - i,
    {
        let ghost earlier = run@.cases;
        let (case_passed, longer) = perform_case(environment, trace, run, case_at(i), done);
        proof {
            assert forall|k: int| 0 <= k < i implies #[trigger] run@.cases[k] == earlier[k] by {
                assert(run@.cases.drop_last()[k] == run@.cases[k]);
            }
            lemma_one_more_case(done@, earlier, longer@, run@.cases.last());
            assert(run@.cases =~= earlier.push(run@.cases.last()));
            let next = lifecycle_state(run@, trace.calls());
            lemma_one_more_case_went(states, next);
            states = states.push(next);
        }
        passed = case_passed;
        done = longer;
        i = i + 1;
    }
    proof {
        reveal(cases_went);
        assert(are_cases(states));
    }
    done
}

/// Whether a text says why a boot identity that just came back cannot stand: the first one came not
/// at all or is no identifier, or a later one came not at all or is another one.
pub open spec fn boot_is_refused(calls: Seq<LifecycleCall>, text: Seq<char>) -> bool {
    &&& calls.len() > 0
    &&& calls.last() matches LifecycleCall::CurrentBootId { answer } && match answer {
        Err(error) => text == if calls.len() == 1 {
            "cannot capture initial boot identity: "@ + error@
        } else {
            "cannot verify pre-reboot boot identity: "@ + error@
        },
        Ok(boot_id) => if calls.len() == 1 {
            !identifier(boot_id@) && text == "initial boot identity is invalid"@
        } else {
            &&& calls[0] matches LifecycleCall::CurrentBootId { answer: Ok(first) } && first@
                != boot_id@
            &&& text == "boot identity changed during the pre-reboot lifecycle prefix"@
        },
    }
}

/// What holds of the record of a qualification that ends before the reboot.
pub open spec fn prefix_record_stands(
    record: RecordModel,
    actions: Seq<LifecycleAction>,
    envelope: EnvelopeModel,
    prerequisite_binding_sha256: Seq<char>,
) -> bool {
    &&& record.envelope == envelope
    &&& record.stage == "live-lifecycle"@
    &&& record.prerequisite_binding_sha256 == Some(prerequisite_binding_sha256)
    &&& record.outcome.status == RunOutcomeStatus::Failed
    &&& record.outcome.another_passing_run_required
    &&& record.live_lifecycle_cases is Some
    &&& cases_in_order(record.live_lifecycle_cases->0)
    &&& record.live_lifecycle_cases->0.len() <= 7
    &&& cases_were_attempted(actions, record.live_lifecycle_cases->0)
    &&& record.outcome.final_firmware_auto_confirmed <==> ends_confirmed(actions)
    &&& record.faults.len() > 0 || !ends_confirmed(actions)
}

/// Whether an outcome before the reboot is what the calls and the run that they left must give.
pub open spec fn is_prefix_outcome(
    result: Result<LiveLifecycleProgress, LiveLifecyclePlanError>,
    calls: Seq<LifecycleCall>,
    actions: Seq<LifecycleAction>,
    run: LifecycleRun,
    completed_at: EvidenceTimestamp,
    envelope: EnvelopeModel,
    prerequisite_binding_sha256: Seq<char>,
    expected: FanIdentities,
) -> bool {
    let record = ended_record(run, completed_at);
    let asked_again = boot_was_asked_again(
        calls,
        run@,
        envelope,
        prerequisite_binding_sha256,
        expected,
    );
    let ended_here = ended_before_reboot(
        calls,
        run@,
        completed_at,
        envelope,
        prerequisite_binding_sha256,
        expected,
    );
    let bound = run.envelope@ == envelope && run.prerequisite_binding_sha256@
        == prerequisite_binding_sha256;
    &&& effects(calls) == action_calls(actions)
    &&& stays_before_reboot(actions)
    &&& every_action_is_contained(actions)
    &&& match result {
        Ok(LiveLifecycleProgress::AwaitingReboot(checkpoint)) => {
            &&& checkpoint.run() == run
            &&& checkpoint.actions() == actions
            &&& checkpoint_error(run) is None
            &&& bound
            &&& asked_again
            &&& calls.last() matches LifecycleCall::CurrentBootId { answer: Ok(boot_id) }
                && boot_id@ == run@.boot_id
            &&& cases_were_attempted(actions, results(run.cases@))
            &&& ends_confirmed(actions)
        },
        Ok(LiveLifecycleProgress::Complete(report)) => {
            &&& report.evidence() == record
            &&& report.actions() == actions
            &&& ended_here
            &&& is_valid(record, flat())
            &&& prefix_record_stands(record, actions, envelope, prerequisite_binding_sha256)
        },
        Err(LiveLifecyclePlanError::InvalidCheckpoint(text)) => {
            ||| boot_is_refused(calls, text@) && (calls.len() == 1 || asked_again)
            ||| checkpoint_error(run) == Some(text@) && asked_again && bound && ends_confirmed(
                actions,
            )
                && cases_were_attempted(actions, results(run.cases@))
        },
        Err(LiveLifecyclePlanError::InvalidGeneratedEvidence(reason)) => {
            &&& validation_error(record, flat()) == Some(reason)
            &&& ended_here
            &&& prefix_record_stands(record, actions, envelope, prerequisite_binding_sha256)
        },
        Err(LiveLifecyclePlanError::InvalidEnvelope(_)) => false,
    }
}

/// Whether a run on the machine before the reboot led to an outcome.
pub open spec fn prefix_was_run<E: LiveLifecycleEnvironment + ?Sized>(
    before: &E,
    after: &E,
    envelope: EnvelopeModel,
    prerequisite_binding_sha256: Seq<char>,
    expected: FanIdentities,
    result: Result<LiveLifecycleProgress, LiveLifecyclePlanError>,
) -> bool {
    exists|
        calls: Seq<LifecycleCall>,
        actions: Seq<LifecycleAction>,
        run: LifecycleRun,
        completed_at: EvidenceTimestamp,
    |
        {
            &&& ran(before, calls, after)
            &&& #[trigger] is_prefix_outcome(
                result,
                calls,
                actions,
                run,
                completed_at,
                envelope,
                prerequisite_binding_sha256,
                expected,
            )
        }
}

/// The cases that went lead from the start to where they led.
proof fn lemma_prefix_came(
    start: LifecycleState,
    opened: LifecycleState,
    end: LifecycleState,
    envelope: EnvelopeModel,
    binding: Seq<char>,
    expected: FanIdentities,
    boot: String,
    started_at: EvidenceTimestamp,
)
    requires
        start == start_state(envelope, binding, expected, boot, started_at),
        initial_gate_went(start.run, opened.run, start.calls, opened.calls, expected),
        if goes_on_with_cases(opened.run) {
            cases_went(opened, end)
        } else {
            end == opened
        },
    ensures
        prefix_came_to(end.calls, end.run, envelope, binding, expected),
{
    reveal(prefix_went);
    reveal(prefix_came_to);
    assert(prefix_went(start, end, expected));
    assert(lifecycle_state(end.run, end.calls) == end);
}

/// Runs the exact lifecycle prefix and returns before the operator reboots the host.
///
/// A plan that cannot run leaves the machine untouched. Whatever the machine answers, no call of the
/// reboot case is made, every case starts from confirmed Firmware Auto and is followed by
/// a restoration and a confirmation, a run that ends here has not passed, and a run that waits for
/// the reboot has passed every case before it.
pub fn run_live_lifecycle_until_reboot<E>(
    environment: &mut E,
    envelope: &QualificationEnvelopeIdentityV1,
    prerequisite_binding_sha256: &str,
    prerequisite_fan_endpoints: &FanEndpointIdentitiesEvidence,
) -> (result: Result<LiveLifecycleProgress, LiveLifecyclePlanError>) where
    E: LiveLifecycleEnvironment + ?Sized,

    ensures
        match identity_error(envelope@) {
            Some(error) => {
                &&& result matches Err(LiveLifecyclePlanError::InvalidEnvelope(e)) && e == error
                &&& &*final(environment) == &*old(environment)
            },
            None => if !lower_hex(prerequisite_binding_sha256@, 64) {
                &&& result matches Err(LiveLifecyclePlanError::InvalidCheckpoint(text)) && text@
                    == "valid prerequisite binding required"@
                &&& &*final(environment) == &*old(environment)
            } else if !endpoints_are_valid(*prerequisite_fan_endpoints) {
                &&& result matches Err(LiveLifecyclePlanError::InvalidCheckpoint(text)) && text@
                    == "valid prerequisite fan endpoint identities required"@
                &&& &*final(environment) == &*old(environment)
            } else {
                prefix_was_run(
                    &*old(environment),
                    &*final(environment),
                    envelope@,
                    prerequisite_binding_sha256@,
                    (
                        prerequisite_fan_endpoints.cpu_enable@,
                        prerequisite_fan_endpoints.gpu_enable@,
                    ),
                    result,
                )
            },
        },
{
    match validate_identity(envelope) {
        Ok(()) => {},
        Err(error) => {
            return Err(LiveLifecyclePlanError::InvalidEnvelope(error));
        },
    }
    if !is_lower_hex(prerequisite_binding_sha256, 64) {
        return Err(
            LiveLifecyclePlanError::InvalidCheckpoint(
                "valid prerequisite binding required".to_owned(),
            ),
        );
    }
    if !prerequisite_fan_endpoints.is_valid() {
        return Err(
            LiveLifecyclePlanError::InvalidCheckpoint(
                "valid prerequisite fan endpoint identities required".to_owned(),
            ),
        );
    }
    run_prefix(
        environment,
        envelope,
        prerequisite_binding_sha256,
        prerequisite_fan_endpoints,
    )
}

/// A run that has seen nothing yet.
fn fresh_run(
    envelope: &QualificationEnvelopeIdentityV1,
    prerequisite_binding_sha256: &str,
    prerequisite_fan_endpoints: &FanEndpointIdentitiesEvidence,
    pre_reboot_boot_id: String,
    started_at: EvidenceTimestamp,
) -> (run: LifecycleRun)
    ensures
        run@ == fresh_lifecycle(
            envelope@,
            prerequisite_binding_sha256@,
            (prerequisite_fan_endpoints.cpu_enable@, prerequisite_fan_endpoints.gpu_enable@),
            pre_reboot_boot_id@,
            started_at,
        ),
        run.pre_reboot_boot_id == pre_reboot_boot_id,
{
    let run = LifecycleRun {
        envelope: envelope.clone(),
        prerequisite_binding_sha256: prerequisite_binding_sha256.to_owned(),
        started_at,
        last_event_at: started_at,
        readbacks: Vec::new(),
        transitions: Vec::new(),
        faults: Vec::new(),
        cases: Vec::new(),
        expected_identities: Some(
            (
                prerequisite_fan_endpoints.cpu_enable.clone(),
                prerequisite_fan_endpoints.gpu_enable.clone(),
            ),
        ),
        final_auto_confirmed: false,
        pre_reboot_boot_id,
    };
    proof {
        assert(run@.readbacks =~= Seq::empty());
        assert(run@.transitions =~= Seq::empty());
        assert(run@.faults =~= Seq::empty());
        assert(run@.cases =~= Seq::empty());
    }
    run
}

/// Whether calls led a run, whose fans they handled as the actions say, to the end of its prefix.
pub open spec fn prefix_ended(
    calls: Seq<LifecycleCall>,
    actions: Seq<LifecycleAction>,
    run: LifecycleModel,
    envelope: EnvelopeModel,
    binding: Seq<char>,
    expected: FanIdentities,
) -> bool {
    &&& effects(calls) == action_calls(actions)
    &&& stays_before_reboot(actions)
    &&& every_action_is_contained(actions)
    &&& run.envelope == envelope
    &&& run.binding == binding
    &&& cases_were_attempted(actions, run.cases)
    &&& cases_in_order(run.cases)
    &&& run.cases.len() <= 7
    &&& run.final_auto_confirmed <==> ends_confirmed(actions)
    &&& prefix_came_to(calls, run, envelope, binding, expected)
    &&& calls.len() > 0
    &&& calls[0] matches LifecycleCall::CurrentBootId { answer: Ok(first) } && first@ == run.boot_id
}

/// Asks for the boot identity once more, and lets the run wait for the reboot where it is the same.
fn wait_for_reboot<E>(
    environment: &mut E,
    trace: &mut Trace<'_, E, LifecycleCall>,
    run: LifecycleRun,
    actions: Ghost<Seq<LifecycleAction>>,
    Ghost(envelope): Ghost<EnvelopeModel>,
    Ghost(binding): Ghost<Seq<char>>,
    Ghost(expected): Ghost<FanIdentities>,
) -> (result: Result<LiveLifecycleProgress, LiveLifecyclePlanError>) where
    E: LiveLifecycleEnvironment + ?Sized,

    requires
        old(trace).follows(&*old(environment)),
        prefix_ended(old(trace).calls(), actions@, run@, envelope, binding, expected),
        goes_on_with_cases(run@),
    ensures
        final(trace).follows(&*final(environment)),
        final(trace).start() == old(trace).start(),
        is_prefix_outcome(
            result,
            final(trace).calls(),
            actions@,
            run,
            run.started_at,
            envelope,
            binding,
            expected,
        ),
{
    let ghost before_boot = trace.calls();
    let second = trace.current_boot_id(environment);
    assert(trace.calls()[0] == before_boot[0]);
    assert(trace.calls().drop_last() =~= before_boot);
    let current_boot_id = match second {
        Ok(boot_id) => boot_id,
        Err(error) => {
            return Err(
                LiveLifecyclePlanError::InvalidCheckpoint(
                    join("cannot verify pre-reboot boot identity: ", error.as_str()),
                ),
            );
        },
    };
    if !same_text(current_boot_id.as_str(), run.pre_reboot_boot_id.as_str()) {
        return Err(
            LiveLifecyclePlanError::InvalidCheckpoint(
                "boot identity changed during the pre-reboot lifecycle prefix".to_owned(),
            ),
        );
    }
    match LiveLifecycleCheckpoint::pause(run, actions) {
        Ok(checkpoint) => Ok(LiveLifecycleProgress::AwaitingReboot(Box::new(checkpoint))),
        Err(error) => Err(LiveLifecyclePlanError::InvalidCheckpoint(error)),
    }
}

/// Ends a run that did not come as far as its reboot.
fn end_before_reboot<E>(
    environment: &mut E,
    trace: &mut Trace<'_, E, LifecycleCall>,
    run: LifecycleRun,
    actions: Ghost<Seq<LifecycleAction>>,
    Ghost(envelope): Ghost<EnvelopeModel>,
    Ghost(binding): Ghost<Seq<char>>,
    Ghost(expected): Ghost<FanIdentities>,
) -> (result: Result<LiveLifecycleProgress, LiveLifecyclePlanError>) where
    E: LiveLifecycleEnvironment + ?Sized,

    requires
        old(trace).follows(&*old(environment)),
        prefix_ended(old(trace).calls(), actions@, run@, envelope, binding, expected),
        !goes_on_with_cases(run@),
    ensures
        final(trace).follows(&*final(environment)),
        final(trace).start() == old(trace).start(),
        exists|completed_at: EvidenceTimestamp|
            #[trigger] is_prefix_outcome(
                result,
                final(trace).calls(),
                actions@,
                run,
                completed_at,
                envelope,
                binding,
                expected,
            ),
{
    assert(run@.cases.len() == run.cases@.len());
    let ghost ended = run;
    let ghost before_end = trace.calls();
    let finished = finish_lifecycle(environment, trace, run, actions);
    let ghost ended_at = choose|answer: EvidenceTimestamp|
        {
            &&& trace.calls() == before_end.push(LifecycleCall::Timestamp { answer })
            &&& #[trigger] is_lifecycle_outcome(
                finished,
                ended_record(ended, boundary_of(ended.last_event_at, answer)),
                actions@,
            )
        };
    let ghost completed_at = boundary_of(ended.last_event_at, ended_at);
    assert(trace.calls().drop_last() =~= before_end);
    let result = match finished {
        Ok(report) => Ok(LiveLifecycleProgress::Complete(Box::new(report))),
        Err(error) => Err(error),
    };
    assert(is_prefix_outcome(
        result,
        trace.calls(),
        actions@,
        ended,
        completed_at,
        envelope,
        binding,
        expected,
    ));
    result
}

/// Runs the prefix of a plan that can run.
fn run_prefix<E>(
    environment: &mut E,
    envelope: &QualificationEnvelopeIdentityV1,
    prerequisite_binding_sha256: &str,
    prerequisite_fan_endpoints: &FanEndpointIdentitiesEvidence,
) -> (result: Result<LiveLifecycleProgress, LiveLifecyclePlanError>) where
    E: LiveLifecycleEnvironment + ?Sized,

    requires
        identity_error(envelope@) is None,
        lower_hex(prerequisite_binding_sha256@, 64),
        endpoints_are_valid(*prerequisite_fan_endpoints),
    ensures
        prefix_was_run(
            &*old(environment),
            &*final(environment),
            envelope@,
            prerequisite_binding_sha256@,
            (prerequisite_fan_endpoints.cpu_enable@, prerequisite_fan_endpoints.gpu_enable@),
            result,
        ),
{
    let mut trace = Trace::begin(environment);
    let first = trace.current_boot_id(environment);
    let ghost first_calls = trace.calls();
    let ghost unrun = choose|run: LifecycleRun| checkpoint_error(run) is None;
    let ghost none = Seq::<LifecycleAction>::empty();
    let ghost expected = (
        prerequisite_fan_endpoints.cpu_enable@,
        prerequisite_fan_endpoints.gpu_enable@,
    );
    assert(ran(&*old(environment), trace.calls(), &*environment));
    let pre_reboot_boot_id = match first {
        Ok(boot_id) => boot_id,
        Err(error) => {
            let result = Err(
                LiveLifecyclePlanError::InvalidCheckpoint(
                    join("cannot capture initial boot identity: ", error.as_str()),
                ),
            );
            assert(is_prefix_outcome(
                result,
                trace.calls(),
                none,
                unrun,
                unrun.started_at,
                envelope@,
                prerequisite_binding_sha256@,
                expected,
            ));
            return result;
        },
    };
    if !is_identifier(pre_reboot_boot_id.as_str()) {
        let result = Err(
            LiveLifecyclePlanError::InvalidCheckpoint(
                "initial boot identity is invalid".to_owned(),
            ),
        );
        assert(is_prefix_outcome(
            result,
            trace.calls(),
            none,
            unrun,
            unrun.started_at,
            envelope@,
            prerequisite_binding_sha256@,
            expected,
        ));
        return result;
    }
    let started_at = trace.timestamp(environment);
    let ghost boot = pre_reboot_boot_id;
    let ghost start = start_state(
        envelope@,
        prerequisite_binding_sha256@,
        expected,
        boot,
        started_at,
    );
    assert(trace.calls() =~= start.calls);
    let mut run = fresh_run(
        envelope,
        prerequisite_binding_sha256,
        prerequisite_fan_endpoints,
        pre_reboot_boot_id,
        started_at,
    );
    let actions = confirm_initial_auto(
        environment,
        &mut trace,
        &mut run,
        prerequisite_fan_endpoints,
    );
    let mut done = actions;
    let ghost opened = lifecycle_state(run@, trace.calls());
    if run.final_auto_confirmed && run.is_clean() {
        done = perform_prefix(environment, &mut trace, &mut run, actions);
    }
    proof {
        lemma_prefix_came(
            start,
            opened,
            lifecycle_state(run@, trace.calls()),
            envelope@,
            prerequisite_binding_sha256@,
            expected,
            boot,
            started_at,
        );
        assert(trace.calls()[0] == first_calls[0]);
    }
    if run.final_auto_confirmed && run.is_clean() {
        let result = wait_for_reboot(
            environment,
            &mut trace,
            run,
            done,
            Ghost(envelope@),
            Ghost(prerequisite_binding_sha256@),
            Ghost(expected),
        );
        assert(ran(&*old(environment), trace.calls(), &*environment));
        return result;
    }
    let result = end_before_reboot(
        environment,
        &mut trace,
        run,
        done,
        Ghost(envelope@),
        Ghost(prerequisite_binding_sha256@),
        Ghost(expected),
    );
    assert(ran(&*old(environment), trace.calls(), &*environment));
    result
}

/// Confirms both fans in Firmware Auto before the first case, after one recovery if need be.
fn confirm_initial_auto<E>(
    environment: &mut E,
    trace: &mut Trace<'_, E, LifecycleCall>,
    run: &mut LifecycleRun,
    endpoints: &FanEndpointIdentitiesEvidence,
) -> (actions: Ghost<Seq<LifecycleAction>>) where E: LiveLifecycleEnvironment + ?Sized
    requires
        old(trace).follows(&*old(environment)),
        effects(old(trace).calls()) == Seq::<LifecycleCall>::empty(),
        old(run)@.faults.len() == 0,
    ensures
        final(trace).follows(&*final(environment)),
        final(trace).start() == old(trace).start(),
        goes_on(old(trace).calls(), final(trace).calls()),
        effects(final(trace).calls()) == action_calls(actions@),
        stays_before_reboot(actions@),
        every_action_is_contained(actions@),
        unchanged_frame(old(run)@, final(run)@),
        final(run)@.cases == old(run)@.cases,
        final(run)@.expected == old(run)@.expected,
        final(run)@.final_auto_confirmed <==> ends_confirmed(actions@),
        old(run)@.cases.len() == 0 ==> cases_were_attempted(actions@, final(run)@.cases),
        initial_gate_went(
            old(run)@,
            final(run)@,
            old(trace).calls(),
            final(trace).calls(),
            (endpoints.cpu_enable@, endpoints.gpu_enable@),
        ),
{
    proof {
        reveal(initial_gate_went);
    }
    let ghost expected = (endpoints.cpu_enable@, endpoints.gpu_enable@);
    let context = GateContext {
        not_before: run.started_at,
        expected_identities: Some((endpoints.cpu_enable.clone(), endpoints.gpu_enable.clone())),
        boot_id: run.pre_reboot_boot_id.clone(),
        allow_clock_reset: false,
    };
    let (gate, gated_by) = confirm_auto_gate(environment, trace, run, &context);
    let ghost gated = run@;
    let ghost gated_calls = trace.calls();
    assert(gate_was_read(old(run)@, gated, old(trace).calls(), gated_calls, context, gate));
    run.last_event_at = later_timestamp(run.last_event_at, gate.completed_at);
    run.final_auto_confirmed = gate.confirmed;
    let ghost first = run@;
    assert(first == after_own_gate(gated, gate));
    let mut actions: Ghost<Seq<LifecycleAction>> = Ghost(
        Seq::empty().push(gated_by@),
    );
    if !gate.confirmed {
        let case = LiveLifecycleCase::InvalidConfiguration;
        let result = trace.restore_after_case(environment, case);
        let ghost contained = LifecycleAction::Contain { case, answer: result };
        let completed_at = trace.timestamp(environment);
        run.record_recovery(gate.completed_at, completed_at, result);
        let ghost recovered = run@;
        let ghost recovered_calls = trace.calls();
        let context = GateContext {
            not_before: run.last_event_at,
            expected_identities: Some((endpoints.cpu_enable.clone(), endpoints.gpu_enable.clone())),
            boot_id: run.pre_reboot_boot_id.clone(),
            allow_clock_reset: false,
        };
        let (recovery, recovered_by) = confirm_auto_gate(environment, trace, run, &context);
        assert(seq![recovered_by@][0] == recovered_by@);
        let ghost regated = run@;
        run.last_event_at = later_timestamp(run.last_event_at, recovery.completed_at);
        run.final_auto_confirmed = recovery.confirmed;
        proof {
            assert(recovered == after_recovery(first, gate.completed_at, completed_at, result));
            assert(gate_was_read(
                recovered,
                regated,
                recovered_calls,
                trace.calls(),
                context,
                recovery,
            ));
            assert(run@ == after_own_gate(regated, recovery));
            assert(recovery_went(
                first,
                run@,
                gated_calls,
                trace.calls(),
                expected,
                gate.completed_at,
            ));
        }
        actions = Ghost(
            actions@.push(contained).push(recovered_by@),
        );
    }
    proof {
        assert(actions@[0] == gated_by@);
        assert(seq![gated_by@][0] == gated_by@);
        assert forall|i: int| 0 <= i < actions@.len() implies action_is_contained(actions@, i) by {}
    }
    actions
}

/// What holds of a report after the reboot, whatever the machine answered.
pub open spec fn resumed_report_stands(
    record: RecordModel,
    actions: Seq<LifecycleAction>,
    run: LifecycleRun,
) -> bool {
    let passed = record.outcome.status == RunOutcomeStatus::Passed;
    let cases = record.live_lifecycle_cases->0;
    &&& record.stage == "live-lifecycle"@
    &&& record.envelope == run.envelope@
    &&& record.prerequisite_binding_sha256 == Some(run.prerequisite_binding_sha256@)
    &&& record.started_at == run.started_at
    &&& is_prefix(readback_list(run.readbacks@), readback_list(record.readbacks))
    &&& is_prefix(transition_list(run.transitions@), transition_list(record.state_transitions))
    &&& record.live_lifecycle_cases is Some
    &&& cases.len() == 8
    &&& cases.drop_last() == results(run.cases@)
    &&& cases.last().case == LiveLifecycleCase::Reboot
    &&& passed == cases.last().passed
    &&& passed == (record.faults.len() == 0 && record.outcome.final_firmware_auto_confirmed)
    &&& passed || record.outcome.status == RunOutcomeStatus::Failed
    &&& record.outcome.another_passing_run_required == !passed
    &&& every_action_is_contained(actions)
    &&& actions.len() >= 3
    &&& actions[actions.len() - 2] is ContainReboot
    &&& passed ==> reboot_was_carried_out(actions)
    &&& record.outcome.final_firmware_auto_confirmed <==> ends_confirmed(actions)
}

/// Continues a run that has waited for its reboot.
fn resume_run<E>(
    environment: &mut E,
    trace: &mut Trace<'_, E, LifecycleCall>,
    waiting: LifecycleRun,
) -> (resumed: (
    LifecycleRun,
    Ghost<Seq<LifecycleAction>>,
)) where E: LiveLifecycleEnvironment + ?Sized
    requires
        old(trace).follows(&*old(environment)),
        effects(old(trace).calls()) == Seq::<LifecycleCall>::empty(),
        prefix_passed(waiting@.cases),
        waiting.faults@.len() == 0,
        waiting@.expected is Some,
    ensures
        final(trace).follows(&*final(environment)),
        final(trace).start() == old(trace).start(),
        goes_on(old(trace).calls(), final(trace).calls()),
        effects(final(trace).calls()) == action_calls(resumed.1@),
        are_reboot_actions(resumed.1@),
        reboot_went(waiting@, resumed.0@, old(trace).calls(), final(trace).calls()),
        forall|completed_at: EvidenceTimestamp| #[trigger]
            resumed_report_stands(ended_record(resumed.0, completed_at), resumed.1@, waiting),
{
    let mut run = waiting;
    let ghost waited = run@;
    assert(fault_list(run.faults@).len() == run.faults@.len());
    let (passed, actions) = perform_reboot(environment, trace, &mut run);
    proof {
        assert(fault_list(run.faults@).len() == run.faults@.len());
        assert forall|k: int| 0 <= k < 7 implies (#[trigger] run@.cases[k]).passed by {
            assert(run@.cases.drop_last()[k] == waited.cases[k]);
        }
    }
    (run, actions)
}

/// Whether a run on the machine after the reboot led to an outcome: the calls that acted are exactly
/// those of the reboot case.
pub open spec fn reboot_was_run<E: LiveLifecycleEnvironment + ?Sized>(
    before: &E,
    after: &E,
    waiting: LifecycleRun,
    result: Result<LiveLifecycleReport, LiveLifecyclePlanError>,
) -> bool {
    exists|
        calls: Seq<LifecycleCall>,
        actions: Seq<LifecycleAction>,
        run: LifecycleRun,
        completed_at: EvidenceTimestamp,
    |
        {
            let record = ended_record(run, completed_at);
            &&& #[trigger] ran(before, calls, after)
            &&& effects(calls) == action_calls(actions)
            &&& are_reboot_actions(actions)
            &&& reboot_came_to(calls, waiting@, run@, completed_at)
            &&& resumed_report_stands(record, actions, waiting)
            &&& #[trigger] is_lifecycle_outcome(result, ended_record(run, completed_at), actions)
        }
}

/// Completes the reboot case after validating a protected pre-reboot checkpoint.
///
/// A checkpoint that cannot be resumed leaves the machine untouched. Whatever the machine answers, the
/// controller is armed only where both fans were just found in Firmware Auto, firmware ownership is
/// restored once after that and both fans are read again, and the record continues the checkpoint.
pub fn resume_live_lifecycle_qualification<E>(
    environment: &mut E,
    checkpoint: LiveLifecycleCheckpoint,
) -> (result: Result<LiveLifecycleReport, LiveLifecyclePlanError>) where
    E: LiveLifecycleEnvironment + ?Sized,

    ensures
        match checkpoint_error(checkpoint.run()) {
            Some(error) => {
                &&& result matches Err(LiveLifecyclePlanError::InvalidCheckpoint(text)) && text@
                    == error
                &&& &*final(environment) == &*old(environment)
            },
            None => reboot_was_run(
                &*old(environment),
                &*final(environment),
                checkpoint.run(),
                result,
            ),
        },
{
    match checkpoint.validate() {
        Ok(()) => {},
        Err(error) => {
            return Err(LiveLifecyclePlanError::InvalidCheckpoint(error));
        },
    }
    proof {
        waiting_run_passed_its_prefix(checkpoint.run());
    }
    let mut trace = Trace::begin(environment);
    let (run, actions) = resume_run(environment, &mut trace, checkpoint.into_run());
    let ghost ended = run;
    let ghost before_end = trace.calls();
    let result = finish_lifecycle(environment, &mut trace, run, actions);
    proof {
        let ended_at = choose|answer: EvidenceTimestamp|
            {
                &&& trace.calls() == before_end.push(LifecycleCall::Timestamp { answer })
                &&& #[trigger] is_lifecycle_outcome(
                    result,
                    ended_record(ended, boundary_of(ended.last_event_at, answer)),
                    actions@,
                )
            };
        let completed_at = boundary_of(ended.last_event_at, ended_at);
        assert(trace.calls().drop_last() =~= before_end);
        assert(ran(&*old(environment), trace.calls(), &*environment));
        assert(reboot_came_to(trace.calls(), checkpoint.run()@, ended@, completed_at));
        assert(resumed_report_stands(
            ended_record(ended, completed_at),
            actions@,
            checkpoint.run(),
        ));
    }
    result
}

proof fn lemma_cases_continue(
    before: Seq<LiveLifecycleCaseResult>,
    cases: Seq<LiveLifecycleCaseResult>,
)
    requires
        cases.len() > 0,
        results(cases).drop_last() == results(before),
    ensures
        is_prefix(case_list(before), case_list(cases)),
{
    assert(results(cases).drop_last().len() == results(before).len());
    assert forall|i: int| 0 <= i < before.len() implies case_list(before)[i] == #[trigger] case_list(
        cases,
    )[i] by {
        assert(results(cases).drop_last()[i] == results(before)[i]);
    }
    assert(case_list(cases).take(before.len() as int) =~= case_list(before));
}

/// The record of a resumed qualification continues what its checkpoint recorded before the reboot.
#[verifier::spinoff_prover]
pub proof fn resumed_record_continues_checkpoint(
    run: LifecycleRun,
    record: EvidenceRecord,
    actions: Seq<LifecycleAction>,
)
    requires
        checkpoint_error(run) is None,
        resumed_report_stands(record@, actions, run),
    ensures
        continues(run, record),
{
    lemma_cases_continue(run.cases@, record.live_lifecycle_cases->0@);
}

} // verus!
