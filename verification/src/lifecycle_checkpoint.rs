//! The state that a lifecycle qualification persists before the reboot.

use vstd::prelude::*;
use vstd::string::*;
use crate::evidence::{
    blank_record, EvidenceFan, EvidenceRecord, EvidenceTimestamp, FanReadbackEvidence,
    FaultEvidence, OutcomeModel, QualificationEnvelopeIdentityV1, RecordModel, RunOutcomeEvidence,
    RunOutcomeStatus, StateTransitionEvidence,
};
use crate::evidence_rules::{identity_error, validate_identity, validation_error};
use crate::lifecycle::{approved_case, case_at, CaseResultModel, LiveLifecycleCaseResult};
use crate::lifecycle_calls::LifecycleAction;
use crate::lifecycle_contents::{
    case_list, is_prefix, starts_with_cases, starts_with_readbacks, starts_with_transitions,
};
use crate::lifecycle_gate::expected_of;
use crate::lifecycle_rules::{
    distinct_identities, identities, identities_are_distinct, refusal_is, FanIdentities,
};
use crate::run_log::{readback_list, transition_list};
use crate::text::{
    identifier, is_identifier, is_lower_hex, is_text, lower_hex, same_text, text_option,
};
use crate::thermal::{flat, flat_slopes};

verus! {

broadcast use vstd::string::group_string_axioms;

/// What a lifecycle qualification holds.
#[derive(Debug)]
pub struct LifecycleRun {
    pub envelope: QualificationEnvelopeIdentityV1,
    pub prerequisite_binding_sha256: String,
    pub started_at: EvidenceTimestamp,
    pub last_event_at: EvidenceTimestamp,
    pub readbacks: Vec<FanReadbackEvidence>,
    pub transitions: Vec<StateTransitionEvidence>,
    pub faults: Vec<FaultEvidence>,
    pub cases: Vec<LiveLifecycleCaseResult>,
    pub expected_identities: Option<(String, String)>,
    pub final_auto_confirmed: bool,
    pub pre_reboot_boot_id: String,
}

/// The contents of a list of case results.
pub open spec fn results(cases: Seq<LiveLifecycleCaseResult>) -> Seq<CaseResultModel> {
    cases.map_values(|c: LiveLifecycleCaseResult| c@)
}

/// The record of a run that waits for its reboot.
pub open spec fn partial_record(run: LifecycleRun) -> RecordModel {
    RecordModel {
        readbacks: run.readbacks@,
        state_transitions: run.transitions@,
        faults: run.faults@,
        live_lifecycle_cases: Some(results(run.cases@)),
        prerequisite_binding_sha256: Some(run.prerequisite_binding_sha256@),
        ..blank_record(
            run.envelope@,
            "live-lifecycle"@,
            run.started_at,
            run.last_event_at,
            OutcomeModel {
                status: RunOutcomeStatus::Failed,
                reason: "reboot checkpoint is not authorization"@,
                another_passing_run_required: true,
                final_firmware_auto_confirmed: true,
            },
        )
    }
}

/// Whether the cases are exactly the passed ones before the reboot.
pub open spec fn prefix_passed(cases: Seq<CaseResultModel>) -> bool {
    &&& cases.len() == 7
    &&& forall|i: int|
        0 <= i < cases.len() ==> (#[trigger] cases[i]).case == approved_case(i) && cases[i].passed
}

/// Whether the last two readbacks come from the given endpoints, the CPU fan's first.
pub open spec fn last_gate_matches(
    readbacks: Seq<FanReadbackEvidence>,
    expected: FanIdentities,
) -> bool {
    readbacks.len() >= 2 && {
        let cpu = readbacks[readbacks.len() - 2];
        let gpu = readbacks[readbacks.len() - 1];
        &&& cpu.fan == EvidenceFan::Cpu
        &&& gpu.fan == EvidenceFan::Gpu
        &&& cpu.endpoint_identity@ == expected.0
        &&& gpu.endpoint_identity@ == expected.1
    }
}

/// Whether all readbacks belong to one boot.
pub open spec fn readbacks_of_boot(
    readbacks: Seq<FanReadbackEvidence>,
    boot_id: Seq<char>,
) -> bool {
    forall|i: int|
        0 <= i < readbacks.len() ==> text_option((#[trigger] readbacks[i]).boot_id) == Some(boot_id)
}

/// Whether all transitions belong to one boot.
pub open spec fn transitions_of_boot(
    transitions: Seq<StateTransitionEvidence>,
    boot_id: Seq<char>,
) -> bool {
    forall|i: int|
        0 <= i < transitions.len() ==> text_option((#[trigger] transitions[i]).boot_id) == Some(
            boot_id,
        )
}

/// Whether each case starts after the one before it has ended.
pub open spec fn cases_follow(cases: Seq<CaseResultModel>) -> bool {
    forall|i: int|
        0 < i < cases.len() ==> cases[i - 1].completed_at.monotonic_millis < (
        #[trigger] cases[i]).started_at.monotonic_millis
}

/// Whether a run's events follow one another and end with its last transition.
pub open spec fn events_are_ordered(run: LifecycleRun) -> bool {
    &&& run.transitions@.len() > 0
    &&& run.transitions@.last().timestamp == run.last_event_at
    &&& run.started_at.monotonic_millis <= run.last_event_at.monotonic_millis
    &&& cases_follow(results(run.cases@))
}

fn passed_prefix(cases: &Vec<LiveLifecycleCaseResult>) -> (yes: bool)
    ensures
        yes == prefix_passed(results(cases@)),
{
    let ghost models = results(cases@);
    if cases.len() != 7 {
        return false;
    }
    let mut i: usize = 0;
    while i < cases.len()
        invariant
            i <= cases.len() == 7,
            models == results(cases@),
            forall|k: int|
                0 <= k < i ==> (#[trigger] models[k]).case == approved_case(k) && models[k].passed,
        decreases cases.len() - i,
    {
        assert(models[i as int] == cases@[i as int]@);
        if cases[i].case() != case_at(i) || !cases[i].passed() {
            return false;
        }
        i = i + 1;
    }
    true
}

fn follow_one_another(cases: &Vec<LiveLifecycleCaseResult>) -> (yes: bool)
    ensures
        yes == cases_follow(results(cases@)),
{
    let ghost models = results(cases@);
    let mut i: usize = 1;
    while i < cases.len()
        invariant
            1 <= i,
            models == results(cases@),
            forall|k: int|
                0 < k < i && k < models.len() ==> models[k - 1].completed_at.monotonic_millis < (
                #[trigger] models[k]).started_at.monotonic_millis,
        decreases cases.len() - i,
    {
        assert(models[i as int] == cases@[i as int]@);
        assert(models[i - 1] == cases@[i - 1]@);
        if cases[i - 1].completed_at().monotonic_millis >= cases[i].started_at().monotonic_millis {
            return false;
        }
        i = i + 1;
    }
    true
}

fn readbacks_are_of_boot(readbacks: &Vec<FanReadbackEvidence>, boot_id: &str) -> (yes: bool)
    ensures
        yes == readbacks_of_boot(readbacks@, boot_id@),
{
    let mut i: usize = 0;
    while i < readbacks.len()
        invariant
            i <= readbacks.len(),
            forall|k: int|
                0 <= k < i ==> text_option((#[trigger] readbacks@[k]).boot_id) == Some(boot_id@),
        decreases readbacks.len() - i,
    {
        if !is_text(&readbacks[i].boot_id, boot_id) {
            assert(text_option(readbacks@[i as int].boot_id) != Some(boot_id@));
            return false;
        }
        i = i + 1;
    }
    true
}

fn transitions_are_of_boot(transitions: &Vec<StateTransitionEvidence>, boot_id: &str) -> (yes: bool)
    ensures
        yes == transitions_of_boot(transitions@, boot_id@),
{
    let mut i: usize = 0;
    while i < transitions.len()
        invariant
            i <= transitions.len(),
            forall|k: int|
                0 <= k < i ==> text_option((#[trigger] transitions@[k]).boot_id) == Some(boot_id@),
        decreases transitions.len() - i,
    {
        if !is_text(&transitions[i].boot_id, boot_id) {
            assert(text_option(transitions@[i as int].boot_id) != Some(boot_id@));
            return false;
        }
        i = i + 1;
    }
    true
}

/// Why a run cannot wait for its reboot.
pub open spec fn checkpoint_error(run: LifecycleRun) -> Option<Seq<char>> {
    match identity_error(run.envelope@) {
        Some(error) => Some(error.text()),
        None => if !lower_hex(run.prerequisite_binding_sha256@, 64) {
            Some("valid prerequisite binding required"@)
        } else if !prefix_passed(results(run.cases@)) {
            Some("exact passing pre-reboot lifecycle prefix required"@)
        } else if !(run.faults@.len() == 0 && run.final_auto_confirmed && identifier(
            run.pre_reboot_boot_id@,
        ) && (expected_of(run.expected_identities) matches Some(ids) && distinct_identities(ids))) {
            Some("fault-free Firmware Auto with distinct fan identities required"@)
        } else if !(last_gate_matches(run.readbacks@, expected_of(run.expected_identities)->0)
            && readbacks_of_boot(run.readbacks@, run.pre_reboot_boot_id@) && transitions_of_boot(
            run.transitions@,
            run.pre_reboot_boot_id@,
        )) {
            Some("checkpoint identities are not bound to its pre-reboot evidence"@)
        } else if !events_are_ordered(run) {
            Some("lifecycle timestamps are not ordered"@)
        } else {
            match validation_error(partial_record(run), flat()) {
                Some(error) => Some(error.text()),
                None => None,
            }
        },
    }
}

/// Protected state persisted by the production coordinator immediately before reboot.
pub struct LiveLifecycleCheckpoint {
    record: EvidenceRecord,
    expected_identities: Option<(String, String)>,
    final_auto_confirmed: bool,
    pre_reboot_boot_id: String,
    actions: Ghost<Seq<LifecycleAction>>,
}

impl LiveLifecycleCheckpoint {
    /// What was done to the machine before the reboot, as far as this process did it.
    pub closed spec fn actions(&self) -> Seq<LifecycleAction> {
        self.actions@
    }

    /// The run that waits.
    pub closed spec fn run(&self) -> LifecycleRun {
        LifecycleRun {
            envelope: self.record.qualification_envelope,
            prerequisite_binding_sha256: self.record.prerequisite_binding_sha256->0,
            started_at: self.record.started_at,
            last_event_at: self.record.completed_at,
            readbacks: self.record.readbacks,
            transitions: self.record.state_transitions,
            faults: self.record.faults,
            cases: self.record.live_lifecycle_cases->0,
            expected_identities: self.expected_identities,
            final_auto_confirmed: self.final_auto_confirmed,
            pre_reboot_boot_id: self.pre_reboot_boot_id,
        }
    }

    #[verifier::type_invariant]
    closed spec fn frames_its_run(self) -> bool {
        &&& self.record.prerequisite_binding_sha256 is Some
        &&& self.record.live_lifecycle_cases is Some
        &&& self.record@ == partial_record(self.run())
    }

    fn of_run(run: LifecycleRun, actions: Ghost<Seq<LifecycleAction>>) -> (checkpoint:
        LiveLifecycleCheckpoint)
        ensures
            checkpoint.run() == run,
            checkpoint.actions() == actions@,
    {
        let mut record = EvidenceRecord::complete_v2(
            run.envelope,
            "live-lifecycle",
            run.started_at,
            run.last_event_at,
            RunOutcomeEvidence {
                status: RunOutcomeStatus::Failed,
                reason: "reboot checkpoint is not authorization".to_owned(),
                another_passing_run_required: true,
                final_firmware_auto_confirmed: true,
            },
        );
        record.readbacks = run.readbacks;
        record.state_transitions = run.transitions;
        record.faults = run.faults;
        record.live_lifecycle_cases = Some(run.cases);
        record.prerequisite_binding_sha256 = Some(run.prerequisite_binding_sha256);
        LiveLifecycleCheckpoint {
            record,
            expected_identities: run.expected_identities,
            final_auto_confirmed: run.final_auto_confirmed,
            pre_reboot_boot_id: run.pre_reboot_boot_id,
            actions,
        }
    }

    pub(crate) fn pause(run: LifecycleRun, actions: Ghost<Seq<LifecycleAction>>) -> (result: Result<
        LiveLifecycleCheckpoint,
        String,
    >)
        ensures
            match checkpoint_error(run) {
                Some(text) => result is Err && result->Err_0@ == text,
                None => result is Ok && result->Ok_0.run() == run && result->Ok_0.actions()
                    == actions@,
            },
    {
        let checkpoint = LiveLifecycleCheckpoint::of_run(run, actions);
        match checkpoint.validate() {
            Ok(()) => Ok(checkpoint),
            Err(error) => Err(error),
        }
    }

    /// Takes a run that waits for its reboot, if it may.
    pub fn from_run(run: LifecycleRun) -> (result: Result<LiveLifecycleCheckpoint, String>)
        ensures
            match checkpoint_error(run) {
                Some(text) => result is Err && result->Err_0@ == text,
                None => result is Ok && result->Ok_0.run() == run,
            },
    {
        LiveLifecycleCheckpoint::pause(run, Ghost(Seq::empty()))
    }

    /// Gives back the run that waited.
    pub fn into_run(self) -> (run: LifecycleRun)
        ensures
            run == self.run(),
    {
        proof {
            use_type_invariant(&self);
        }
        let record = self.record;
        LifecycleRun {
            envelope: record.qualification_envelope,
            prerequisite_binding_sha256: record.prerequisite_binding_sha256.unwrap(),
            started_at: record.started_at,
            last_event_at: record.completed_at,
            readbacks: record.readbacks,
            transitions: record.state_transitions,
            faults: record.faults,
            cases: record.live_lifecycle_cases.unwrap(),
            expected_identities: self.expected_identities,
            final_auto_confirmed: self.final_auto_confirmed,
            pre_reboot_boot_id: self.pre_reboot_boot_id,
        }
    }

    pub fn envelope(&self) -> (envelope: &QualificationEnvelopeIdentityV1)
        ensures
            *envelope == self.run().envelope,
    {
        &self.record.qualification_envelope
    }

    pub fn prerequisite_binding_sha256(&self) -> (binding: &str)
        ensures
            binding@ == self.run().prerequisite_binding_sha256@,
    {
        proof {
            use_type_invariant(self);
        }
        match &self.record.prerequisite_binding_sha256 {
            Some(binding) => binding.as_str(),
            None => "",
        }
    }

    pub fn started_at(&self) -> (at: EvidenceTimestamp)
        ensures
            at == self.run().started_at,
    {
        self.record.started_at
    }

    /// Whether a record continues what was recorded before the reboot.
    pub fn matches_completed_record_prefix(&self, record: &EvidenceRecord) -> (yes: bool)
        ensures
            yes == continues(self.run(), *record),
    {
        proof {
            use_type_invariant(self);
        }
        let cases_match = match (&record.live_lifecycle_cases, &self.record.live_lifecycle_cases) {
            (Some(cases), Some(prefix)) => starts_with_cases(cases, prefix),
            _ => false,
        };
        self.validate().is_ok() && self.record.qualification_envelope.same_as(
            &record.qualification_envelope,
        ) && is_text(&record.prerequisite_binding_sha256, self.prerequisite_binding_sha256())
            && self.record.started_at == record.started_at && starts_with_readbacks(
            &record.readbacks,
            &self.record.readbacks,
        ) && starts_with_transitions(&record.state_transitions, &self.record.state_transitions)
            && cases_match
    }

    fn prefix_is_passed(&self) -> (yes: bool)
        ensures
            yes == prefix_passed(results(self.run().cases@)),
    {
        proof {
            use_type_invariant(self);
        }
        match &self.record.live_lifecycle_cases {
            None => false,
            Some(cases) => passed_prefix(cases),
        }
    }

    fn cases_are_ordered(&self) -> (yes: bool)
        ensures
            yes == cases_follow(results(self.run().cases@)),
    {
        proof {
            use_type_invariant(self);
        }
        match &self.record.live_lifecycle_cases {
            None => false,
            Some(cases) => follow_one_another(cases),
        }
    }

    fn ends_with_gate(&self, expected: &(String, String)) -> (yes: bool)
        ensures
            yes == last_gate_matches(self.run().readbacks@, identities(*expected)),
    {
        let readbacks = &self.record.readbacks;
        let count = readbacks.len();
        count >= 2 && readbacks[count - 2].fan == EvidenceFan::Cpu && readbacks[count - 1].fan
            == EvidenceFan::Gpu && same_text(
            readbacks[count - 2].endpoint_identity.as_str(),
            expected.0.as_str(),
        ) && same_text(readbacks[count - 1].endpoint_identity.as_str(), expected.1.as_str())
    }

    /// Decides whether the run that waits may wait.
    pub fn validate(&self) -> (result: Result<(), String>)
        ensures
            refusal_is(result, checkpoint_error(self.run())),
    {
        proof {
            use_type_invariant(self);
        }
        match validate_identity(&self.record.qualification_envelope) {
            Ok(()) => {},
            Err(error) => {
                return Err(error.message());
            },
        }
        if !is_lower_hex(self.prerequisite_binding_sha256(), 64) {
            return Err("valid prerequisite binding required".to_owned());
        }
        if !self.prefix_is_passed() {
            return Err("exact passing pre-reboot lifecycle prefix required".to_owned());
        }
        let expected = match &self.expected_identities {
            Some(expected) => expected,
            None => {
                return Err(
                    "fault-free Firmware Auto with distinct fan identities required".to_owned(),
                );
            },
        };
        if self.record.faults.len() != 0 || !self.final_auto_confirmed || !is_identifier(
            self.pre_reboot_boot_id.as_str(),
        ) || !identities_are_distinct(expected.0.as_str(), expected.1.as_str()) {
            return Err("fault-free Firmware Auto with distinct fan identities required".to_owned());
        }
        if !self.ends_with_gate(expected) || !readbacks_are_of_boot(
            &self.record.readbacks,
            self.pre_reboot_boot_id.as_str(),
        ) || !transitions_are_of_boot(
            &self.record.state_transitions,
            self.pre_reboot_boot_id.as_str(),
        ) {
            return Err(
                "checkpoint identities are not bound to its pre-reboot evidence".to_owned(),
            );
        }
        let transitions = &self.record.state_transitions;
        let count = transitions.len();
        if count == 0 || transitions[count - 1].timestamp != self.record.completed_at
            || self.record.started_at.monotonic_millis > self.record.completed_at.monotonic_millis
            || !self.cases_are_ordered() {
            return Err("lifecycle timestamps are not ordered".to_owned());
        }
        match self.record.validate(flat_slopes()) {
            Ok(()) => Ok(()),
            Err(error) => Err(error.message()),
        }
    }
}

impl Clone for LiveLifecycleCheckpoint {
    fn clone(&self) -> (copy: LiveLifecycleCheckpoint)
        ensures
            copy.run()@ == self.run()@,
            copy.actions() == self.actions(),
    {
        proof {
            use_type_invariant(self);
        }
        let record = self.record.clone();
        proof {
            assert(partial_record(self.run()) == record@);
        }
        LiveLifecycleCheckpoint {
            record,
            expected_identities: match &self.expected_identities {
                Some((cpu, gpu)) => Some((cpu.clone(), gpu.clone())),
                None => None,
            },
            final_auto_confirmed: self.final_auto_confirmed,
            pre_reboot_boot_id: self.pre_reboot_boot_id.clone(),
            actions: self.actions,
        }
    }
}

/// A run that may wait for its reboot has passed every case before it without a fault, and has just
/// confirmed two distinct fans in Firmware Auto.
pub proof fn waiting_run_passed_its_prefix(run: LifecycleRun)
    requires
        checkpoint_error(run) is None,
    ensures
        prefix_passed(results(run.cases@)),
        run.faults@.len() == 0,
        run.final_auto_confirmed,
        expected_of(run.expected_identities) matches Some(ids) && distinct_identities(ids),
        last_gate_matches(run.readbacks@, expected_of(run.expected_identities)->0),
{
}

/// Whether a record continues what a valid checkpoint recorded before the reboot.
pub open spec fn continues(run: LifecycleRun, record: EvidenceRecord) -> bool {
    &&& checkpoint_error(run) is None
    &&& run.envelope@ == record.qualification_envelope@
    &&& text_option(record.prerequisite_binding_sha256) == Some(run.prerequisite_binding_sha256@)
    &&& run.started_at == record.started_at
    &&& is_prefix(readback_list(run.readbacks@), readback_list(record.readbacks@))
    &&& is_prefix(transition_list(run.transitions@), transition_list(record.state_transitions@))
    &&& record.live_lifecycle_cases matches Some(cases) && is_prefix(
        case_list(run.cases@),
        case_list(cases@),
    )
}

} // verus!
