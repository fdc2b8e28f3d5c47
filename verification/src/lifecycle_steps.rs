//! The decisions of a lifecycle qualification, one step at a time.

use vstd::prelude::*;
use vstd::string::*;
use crate::evidence::{EnvelopeModel, EvidenceTimestamp, StateTransitionEvidence};
use crate::lifecycle::{
    attestations, not_before, reaches, AttestationModel, CaseResultModel, LiveLifecycleCase,
    LiveLifecycleCaseObservation, LiveLifecycleCaseResult, LiveLifecycleObserved,
    LiveLifecycleObserverAttestation,
};
use crate::lifecycle_checkpoint::{results, LifecycleRun};
use crate::lifecycle_gate::{
    boot_fault, expected_of, gate_faults, gate_is, gate_readbacks, judge_gate, later_of,
    later_timestamp, push_boot_fault, strictly_after, strictly_after_timestamp, AutoGate,
    FanReading, GateContext,
};
use crate::lifecycle_rules::{
    case_error, case_failure, coverage_error, identities, validate_case_observation,
    validate_observer_attestations, FanIdentities,
};
use crate::run_log::{
    fault_list, readback_list, transition_list, FaultModel, ReadbackModel, TransitionModel,
};
use crate::text::{join, join3, text_option};

verus! {

broadcast use vstd::string::group_string_axioms;

/// The contents of a lifecycle qualification.
pub struct LifecycleModel {
    pub envelope: EnvelopeModel,
    pub binding: Seq<char>,
    pub started_at: EvidenceTimestamp,
    pub last_event_at: EvidenceTimestamp,
    pub readbacks: Seq<ReadbackModel>,
    pub transitions: Seq<TransitionModel>,
    pub faults: Seq<FaultModel>,
    pub cases: Seq<CaseResultModel>,
    pub expected: Option<FanIdentities>,
    pub final_auto_confirmed: bool,
    pub boot_id: Seq<char>,
}

impl View for LifecycleRun {
    type V = LifecycleModel;

    open spec fn view(&self) -> LifecycleModel {
        LifecycleModel {
            envelope: self.envelope@,
            binding: self.prerequisite_binding_sha256@,
            started_at: self.started_at,
            last_event_at: self.last_event_at,
            readbacks: readback_list(self.readbacks@),
            transitions: transition_list(self.transitions@),
            faults: fault_list(self.faults@),
            cases: results(self.cases@),
            expected: expected_of(self.expected_identities),
            final_auto_confirmed: self.final_auto_confirmed,
            boot_id: self.pre_reboot_boot_id@,
        }
    }
}

/// The first of two messages.
pub open spec fn first_text(first: Option<Seq<char>>, second: Option<Seq<char>>) -> Option<
    Seq<char>,
> {
    if first is Some {
        first
    } else {
        second
    }
}

pub(crate) fn failed(case: LiveLifecycleCase, reason: &str) -> (text: String)
    ensures
        text@ == case_failure(case, reason@),
{
    join3(case.id(), " failed: ", reason)
}

/// A run after a confirmation.
pub open spec fn after_gate(
    m: LifecycleModel,
    context: GateContext,
    cpu: FanReading,
    gpu: FanReading,
) -> LifecycleModel {
    LifecycleModel {
        readbacks: m.readbacks + gate_readbacks(context, cpu, gpu),
        faults: gate_faults(m.faults, context, cpu, gpu),
        ..m
    }
}

/// A moment between two others, on both clocks.
pub open spec fn lies_between(
    at: EvidenceTimestamp,
    earliest: EvidenceTimestamp,
    latest: EvidenceTimestamp,
) -> bool {
    reaches(earliest, at) && reaches(at, latest)
}

/// A run after a recovery from a failed first confirmation.
pub open spec fn after_recovery(
    m: LifecycleModel,
    earliest: EvidenceTimestamp,
    completed_at: EvidenceTimestamp,
    result: Result<LiveLifecycleObserved<EvidenceTimestamp>, String>,
) -> LifecycleModel {
    let faults = match result {
        Ok(restored) => if lies_between(restored.observation, earliest, completed_at) {
            m.faults
        } else {
            m.faults.push(
                boot_fault(
                    completed_at,
                    m.boot_id,
                    "initial-auto-recovery-failed"@,
                    "initial Auto-gate recovery evidence was not fresh and ordered"@,
                ),
            )
        },
        Err(error) => m.faults.push(
            boot_fault(
                completed_at,
                m.boot_id,
                "initial-auto-recovery-failed"@,
                "cannot restore Firmware Auto after initial gate failure: "@ + error@,
            ),
        ),
    };
    LifecycleModel { faults, last_event_at: later_of(m.last_event_at, completed_at), ..m }
}

/// What is wrong with the action of a case.
pub open spec fn action_error(
    case: LiveLifecycleCase,
    result: Result<LiveLifecycleObserved<LiveLifecycleCaseObservation>, String>,
    started_at: EvidenceTimestamp,
    completed_at: EvidenceTimestamp,
    expected: FanIdentities,
) -> Option<Seq<char>> {
    if completed_at.monotonic_millis <= started_at.monotonic_millis {
        Some(case_failure(case, "monotonic clock did not advance across the case"@))
    } else {
        match result {
            Ok(seen) => case_error(case, seen.observation, started_at, completed_at, expected),
            Err(error) => Some(case_failure(case, error@)),
        }
    }
}

/// What is wrong with the cleanup of a case.
pub open spec fn cleanup_error(
    case: LiveLifecycleCase,
    cleanup: Result<LiveLifecycleObserved<EvidenceTimestamp>, String>,
    completed_at: EvidenceTimestamp,
    cleaned_at: EvidenceTimestamp,
) -> Option<Seq<char>> {
    match cleanup {
        Ok(restored) => if lies_between(restored.observation, completed_at, cleaned_at) {
            None
        } else {
            Some(case_failure(case, "lifecycle cleanup evidence was not fresh and ordered"@))
        },
        Err(error) => Some(case_failure(case, "lifecycle cleanup failed: "@ + error@)),
    }
}

/// The moment from which the confirmation after a case counts.
pub open spec fn case_ended_at(
    cleanup: Result<LiveLifecycleObserved<EvidenceTimestamp>, String>,
    requested_at: EvidenceTimestamp,
    completed_at: EvidenceTimestamp,
    cleaned_at: EvidenceTimestamp,
) -> EvidenceTimestamp {
    strictly_after(
        match cleanup {
            Ok(restored) => if lies_between(restored.observation, completed_at, cleaned_at) {
                restored.observation
            } else {
                cleaned_at
            },
            Err(_) => cleaned_at,
        },
        requested_at,
    )
}

/// The observer coverage of a case and of its cleanup.
pub open spec fn case_coverage(
    result: Result<LiveLifecycleObserved<LiveLifecycleCaseObservation>, String>,
    cleanup: Result<LiveLifecycleObserved<EvidenceTimestamp>, String>,
    completed_at: EvidenceTimestamp,
    cleaned_at: EvidenceTimestamp,
) -> Seq<AttestationModel> {
    let action = match result {
        Ok(seen) => attestations(seen.observer_attestations@),
        Err(_) => Seq::empty(),
    };
    match cleanup {
        Ok(restored) => if lies_between(restored.observation, completed_at, cleaned_at) {
            action + attestations(restored.observer_attestations@)
        } else {
            action
        },
        Err(_) => action,
    }
}

/// Why a case did not prove what it must.
pub open spec fn case_defect(
    case: LiveLifecycleCase,
    result: Result<LiveLifecycleObserved<LiveLifecycleCaseObservation>, String>,
    cleanup: Result<LiveLifecycleObserved<EvidenceTimestamp>, String>,
    window: CaseWindow,
    expected: FanIdentities,
) -> Option<Seq<char>> {
    let action = action_error(
        case,
        result,
        window.started_at,
        window.completed_at,
        expected,
    );
    let contained = first_text(
        action,
        cleanup_error(case, cleanup, window.completed_at, window.cleaned_at),
    );
    match result {
        Ok(seen) => first_text(
            contained,
            coverage_error(
                case,
                case_coverage(result, cleanup, window.completed_at, window.cleaned_at),
                seen.observation,
                window.started_at,
                case_ended_at(
                    cleanup,
                    window.requested_at,
                    window.completed_at,
                    window.cleaned_at,
                ),
            ),
        ),
        Err(_) => contained,
    }
}

/// The moments of a case.
#[derive(Debug, Clone, Copy, PartialEq, Eq, Structural)]
pub struct CaseWindow {
    pub requested_at: EvidenceTimestamp,
    pub started_at: EvidenceTimestamp,
    /// When the action of the case returned.
    pub completed_at: EvidenceTimestamp,
    /// When the cleanup after it returned.
    pub cleaned_at: EvidenceTimestamp,
}

/// What a case left behind, and why it failed.
#[derive(Debug)]
pub struct CaseJudgement {
    pub observation: Option<LiveLifecycleCaseObservation>,
    pub observer_attestations: Vec<LiveLifecycleObserverAttestation>,
    pub error: Option<String>,
    pub ended_at: EvidenceTimestamp,
}

/// The observation that a case left behind.
pub open spec fn case_observation(
    result: Result<LiveLifecycleObserved<LiveLifecycleCaseObservation>, String>,
) -> Option<LiveLifecycleCaseObservation> {
    match result {
        Ok(seen) => Some(seen.observation),
        Err(_) => None,
    }
}

fn is_between(
    at: EvidenceTimestamp,
    earliest: EvidenceTimestamp,
    latest: EvidenceTimestamp,
) -> (yes: bool)
    ensures
        yes == lies_between(at, earliest, latest),
{
    not_before(earliest, at) && not_before(at, latest)
}

pub(crate) fn append_attestations(
    list: &mut Vec<LiveLifecycleObserverAttestation>,
    mut more: Vec<LiveLifecycleObserverAttestation>,
)
    ensures
        attestations(final(list)@) == attestations(old(list)@) + attestations(more@),
{
    let ghost added = more@;
    list.append(&mut more);
    assert(attestations(list@) =~= attestations(old(list)@) + attestations(added));
}

/// Judges a case other than the reboot, with the cleanup after it.
pub fn judge_case(
    case: LiveLifecycleCase,
    result: Result<LiveLifecycleObserved<LiveLifecycleCaseObservation>, String>,
    cleanup: Result<LiveLifecycleObserved<EvidenceTimestamp>, String>,
    window: CaseWindow,
    expected: &(String, String),
) -> (judgement: CaseJudgement)
    ensures
        judgement.observation == case_observation(result),
        attestations(judgement.observer_attestations@) == case_coverage(
            result,
            cleanup,
            window.completed_at,
            window.cleaned_at,
        ),
        text_option(judgement.error) == case_defect(
            case,
            result,
            cleanup,
            window,
            identities(*expected),
        ),
        judgement.ended_at == case_ended_at(
            cleanup,
            window.requested_at,
            window.completed_at,
            window.cleaned_at,
        ),
{
    let mut observer_attestations: Vec<LiveLifecycleObserverAttestation> = Vec::new();
    assert(attestations(observer_attestations@) =~= Seq::<AttestationModel>::empty());
    let mut error: Option<String> = None;
    let observation = match result {
        Ok(seen) => {
            match validate_case_observation(
                case,
                &seen.observation,
                window.started_at,
                window.completed_at,
                expected,
            ) {
                Ok(()) => {},
                Err(text) => {
                    error = Some(text);
                },
            }
            observer_attestations = seen.observer_attestations;
            Some(seen.observation)
        },
        Err(text) => {
            error = Some(failed(case, text.as_str()));
            None
        },
    };
    if window.completed_at.monotonic_millis <= window.started_at.monotonic_millis {
        error = Some(failed(case, "monotonic clock did not advance across the case"));
    }
    let mut ended_at = window.cleaned_at;
    match cleanup {
        Ok(restored) => {
            if is_between(restored.observation, window.completed_at, window.cleaned_at) {
                ended_at = restored.observation;
                append_attestations(&mut observer_attestations, restored.observer_attestations);
            } else if error.is_none() {
                error = Some(failed(case, "lifecycle cleanup evidence was not fresh and ordered"));
            }
        },
        Err(text) => {
            if error.is_none() {
                error = Some(
                    failed(case, join("lifecycle cleanup failed: ", text.as_str()).as_str()),
                );
            }
        },
    }
    ended_at = strictly_after_timestamp(ended_at, window.requested_at);
    match &observation {
        Some(observation) => {
            match validate_observer_attestations(
                case,
                observer_attestations.as_slice(),
                observation,
                window.started_at,
                ended_at,
            ) {
                Ok(()) => {},
                Err(text) => {
                    if error.is_none() {
                        error = Some(text);
                    }
                },
            }
        },
        None => {},
    }
    CaseJudgement { observation, observer_attestations, error, ended_at }
}

/// The text that a case result carries.
pub open spec fn case_detail(
    case: LiveLifecycleCase,
    error: Option<Seq<char>>,
    final_auto_confirmed: bool,
) -> Seq<char> {
    match error {
        Some(text) => text,
        None => if final_auto_confirmed {
            case.name() + " passed and both fans confirmed Firmware Auto"@
        } else {
            case.name() + " ended without both fans confirmed in Firmware Auto"@
        },
    }
}

/// A transition of a particular boot.
pub open spec fn boot_transition(
    at: EvidenceTimestamp,
    boot_id: Seq<char>,
    from: Seq<char>,
    to: Seq<char>,
) -> TransitionModel {
    TransitionModel { timestamp: at, boot_id: Some(boot_id), from, to }
}

/// Records a transition of a particular boot.
fn push_boot_transition(
    transitions: &mut Vec<StateTransitionEvidence>,
    at: EvidenceTimestamp,
    boot_id: &str,
    from: &str,
    to: &str,
)
    ensures
        transition_list(final(transitions)@) == transition_list(old(transitions)@).push(
            boot_transition(at, boot_id@, from@, to@),
        ),
{
    transitions.push(
        StateTransitionEvidence {
            timestamp: at,
            boot_id: Some(boot_id.to_owned()),
            from: from.to_owned(),
            to: to.to_owned(),
        },
    );
    proof {
        assert(transition_list(transitions@) =~= transition_list(old(transitions)@).push(
            boot_transition(at, boot_id@, from@, to@),
        ));
    }
}

/// A run after a case was asked for.
pub open spec fn after_case_request(
    m: LifecycleModel,
    case: LiveLifecycleCase,
    requested_at: EvidenceTimestamp,
) -> LifecycleModel {
    LifecycleModel {
        transitions: m.transitions.push(
            boot_transition(requested_at, m.boot_id, "firmware-auto"@, case.name()),
        ),
        ..m
    }
}

/// How a case is put on record.
pub struct CaseRecord {
    pub case: LiveLifecycleCase,
    pub started_at: EvidenceTimestamp,
    pub completed_at: EvidenceTimestamp,
    pub observation: Option<LiveLifecycleCaseObservation>,
    pub coverage: Seq<AttestationModel>,
    pub error: Option<Seq<char>>,
    /// The boot under which the end of the case is recorded.
    pub boot_id: Seq<char>,
    /// When the confirmation right after the case ended.
    pub gate_at: EvidenceTimestamp,
    /// When the case left its state.
    pub left_at: EvidenceTimestamp,
    pub last_event_at: EvidenceTimestamp,
    /// The endpoints that the confirmation right after the case was read from, if it succeeded.
    pub rebound: Option<FanIdentities>,
    pub final_auto_confirmed: bool,
}

/// A run after a case was put on record.
pub open spec fn after_case(m: LifecycleModel, r: CaseRecord) -> LifecycleModel {
    LifecycleModel {
        faults: match r.error {
            Some(text) => m.faults.push(
                boot_fault(r.gate_at, r.boot_id, "live-lifecycle-case-failed"@, text),
            ),
            None => m.faults,
        },
        last_event_at: r.last_event_at,
        final_auto_confirmed: r.final_auto_confirmed,
        expected: if r.rebound is Some {
            r.rebound
        } else {
            m.expected
        },
        transitions: m.transitions.push(
            boot_transition(
                r.left_at,
                r.boot_id,
                r.case.name(),
                if r.final_auto_confirmed {
                    "firmware-auto"@
                } else {
                    "lifecycle-blocked"@
                },
            ),
        ),
        cases: m.cases.push(
            CaseResultModel {
                case: r.case,
                started_at: r.started_at,
                completed_at: r.completed_at,
                observation: r.observation,
                observer_attestations: r.coverage,
                passed: r.error is None && r.final_auto_confirmed,
                detail: case_detail(r.case, r.error, r.final_auto_confirmed),
            },
        ),
        ..m
    }
}

impl LifecycleRun {
    /// Whether the run has met no fault so far.
    pub fn is_clean(&self) -> (yes: bool)
        ensures
            yes == (self@.faults.len() == 0),
    {
        assert(fault_list(self.faults@).len() == self.faults@.len());
        self.faults.len() == 0
    }

    /// Records a confirmation.
    pub fn record_gate(&mut self, context: &GateContext, cpu: FanReading, gpu: FanReading) -> (gate:
        AutoGate)
        ensures
            final(self)@ == after_gate(old(self)@, *context, cpu, gpu),
            gate_is(gate, *context, cpu, gpu),
    {
        judge_gate(context, cpu, gpu, &mut self.readbacks, &mut self.faults)
    }

    /// Records the recovery from a failed first confirmation.
    pub fn record_recovery(
        &mut self,
        earliest: EvidenceTimestamp,
        completed_at: EvidenceTimestamp,
        result: Result<LiveLifecycleObserved<EvidenceTimestamp>, String>,
    )
        ensures
            final(self)@ == after_recovery(old(self)@, earliest, completed_at, result),
    {
        match result {
            Ok(restored) => {
                if !is_between(restored.observation, earliest, completed_at) {
                    push_boot_fault(
                        &mut self.faults,
                        completed_at,
                        self.pre_reboot_boot_id.as_str(),
                        "initial-auto-recovery-failed",
                        "initial Auto-gate recovery evidence was not fresh and ordered",
                    );
                }
            },
            Err(error) => {
                let detail = join(
                    "cannot restore Firmware Auto after initial gate failure: ",
                    error.as_str(),
                );
                push_boot_fault(
                    &mut self.faults,
                    completed_at,
                    self.pre_reboot_boot_id.as_str(),
                    "initial-auto-recovery-failed",
                    detail.as_str(),
                );
            },
        }
        self.last_event_at = later_timestamp(self.last_event_at, completed_at);
    }

    /// Records that a case was asked for.
    pub fn record_case_request(&mut self, case: LiveLifecycleCase, requested_at: EvidenceTimestamp)
        ensures
            final(self)@ == after_case_request(old(self)@, case, requested_at),
    {
        push_boot_transition(
            &mut self.transitions,
            requested_at,
            self.pre_reboot_boot_id.as_str(),
            "firmware-auto",
            case.id(),
        );
    }

    /// Puts a case on record, and tells whether it passed.
    pub fn record_case(
        &mut self,
        case: LiveLifecycleCase,
        started_at: EvidenceTimestamp,
        completed_at: EvidenceTimestamp,
        observation: Option<LiveLifecycleCaseObservation>,
        observer_attestations: Vec<LiveLifecycleObserverAttestation>,
        error: Option<String>,
        boot_id: &str,
        gate_at: EvidenceTimestamp,
        left_at: EvidenceTimestamp,
        last_event_at: EvidenceTimestamp,
        rebound: Option<(String, String)>,
        final_auto_confirmed: bool,
    ) -> (passed: bool)
        ensures
            final(self)@ == after_case(
                old(self)@,
                CaseRecord {
                    case,
                    started_at,
                    completed_at,
                    observation,
                    coverage: attestations(observer_attestations@),
                    error: text_option(error),
                    boot_id: boot_id@,
                    gate_at,
                    left_at,
                    last_event_at,
                    rebound: expected_of(rebound),
                    final_auto_confirmed,
                },
            ),
            passed == (error is None && final_auto_confirmed),
    {
        let passed = error.is_none() && final_auto_confirmed;
        let detail = match error {
            Some(detail) => {
                push_boot_fault(
                    &mut self.faults,
                    gate_at,
                    boot_id,
                    "live-lifecycle-case-failed",
                    detail.as_str(),
                );
                detail
            },
            None => if final_auto_confirmed {
                join(case.id(), " passed and both fans confirmed Firmware Auto")
            } else {
                join(case.id(), " ended without both fans confirmed in Firmware Auto")
            },
        };
        self.last_event_at = last_event_at;
        self.final_auto_confirmed = final_auto_confirmed;
        if rebound.is_some() {
            self.expected_identities = rebound;
        }
        push_boot_transition(
            &mut self.transitions,
            left_at,
            boot_id,
            case.id(),
            if final_auto_confirmed {
                "firmware-auto"
            } else {
                "lifecycle-blocked"
            },
        );
        let ghost earlier = self.cases@;
        let result = LiveLifecycleCaseResult::new(
            case,
            started_at,
            completed_at,
            observation,
            observer_attestations,
            passed,
            detail,
        );
        self.cases.push(result);
        proof {
            assert(results(self.cases@) =~= results(earlier).push(result@));
        }
        passed
    }
}

} // verus!
