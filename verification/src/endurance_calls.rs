//! The calls of a supervised endurance run.

use vstd::prelude::*;
use crate::endurance_schedule::SupervisedEnduranceSegment;
use crate::endurance_shutdown::{
    StopEffort, SupervisedEnduranceEnvironment, SupervisedEnduranceFanContainment,
    SupervisedEnduranceProcessStopConfirmation, SupervisedEnduranceSegmentConfirmation,
};
use crate::evidence::{
    EvidenceFan, EvidenceTimestamp, StoppedProcess, TelemetrySampleEvidence, WorkloadEvidence,
};
use crate::matched_control::MatchedWorkloadObservation;
use crate::matched_workload::{
    CapturedMatchedWorkloadStartingConditions, MatchedWorkloadFanRestoration,
};
use crate::trace::{CallOn, Effect, Trace};

use crate::observations::Observes;

verus! {

/// A call of a supervised endurance run, with what was asked and what came back.
#[allow(inconsistent_fields)]
pub enum EnduranceCall {
    Timestamp {
        answer: EvidenceTimestamp,
    },
    ConfirmObserver {
        deadline: u64,
        answer: Result<EvidenceTimestamp, String>,
    },
    CaptureStartingConditions {
        deadline: u64,
        answer: Result<CapturedMatchedWorkloadStartingConditions, String>,
    },
    EnterCustomControl {
        deadline: u64,
        answer: Result<(), String>,
    },
    BeginSegment {
        segment: SupervisedEnduranceSegment,
        deadline: u64,
        answer: Result<SupervisedEnduranceSegmentConfirmation, String>,
    },
    StartWorkload {
        workload: WorkloadEvidence,
        deadline: u64,
        answer: Result<EvidenceTimestamp, String>,
    },
    WaitUntil {
        target: u64,
        deadline: u64,
        answer: Result<(), String>,
    },
    CaptureObservation {
        deadline: u64,
        answer: Result<MatchedWorkloadObservation, String>,
    },
    StopWorkload {
        deadline: u64,
        answer: Result<SupervisedEnduranceProcessStopConfirmation, String>,
    },
    ContainWorkload {
        deadline: u64,
        answer: Result<SupervisedEnduranceProcessStopConfirmation, String>,
    },
    ForceContainWorkload {
        deadline: u64,
        answer: Result<SupervisedEnduranceProcessStopConfirmation, String>,
    },
    StopService {
        deadline: u64,
        answer: Result<SupervisedEnduranceProcessStopConfirmation, String>,
    },
    ContainService {
        deadline: u64,
        answer: Result<SupervisedEnduranceProcessStopConfirmation, String>,
    },
    ForceContainService {
        deadline: u64,
        answer: Result<SupervisedEnduranceProcessStopConfirmation, String>,
    },
    RestoreFan {
        fan: EvidenceFan,
        deadline: u64,
        answer: MatchedWorkloadFanRestoration,
    },
    ContainFanAtMaximum {
        fan: EvidenceFan,
        deadline: u64,
        answer: SupervisedEnduranceFanContainment,
    },
}

/// The call that an escalated stop may come down to: a machine without an escalation of its own
/// stops the process once more.
pub open spec fn plain_stop(call: EnduranceCall) -> EnduranceCall {
    match call {
        EnduranceCall::ContainWorkload { deadline, answer } => EnduranceCall::StopWorkload {
            deadline,
            answer,
        },
        EnduranceCall::ContainService { deadline, answer } => EnduranceCall::StopService {
            deadline,
            answer,
        },
        _ => call,
    }
}

impl<E: SupervisedEnduranceEnvironment + ?Sized> CallOn<E> for EnduranceCall {
    open spec fn came(self, before: &E, after: &E) -> bool {
        after.history() == before.history().push(self) || after.history()
            == before.history().push(plain_stop(self))
    }
}

impl Observes for EnduranceCall {
    open spec fn sample(self) -> Option<TelemetrySampleEvidence> {
        match self {
            EnduranceCall::CaptureObservation { answer: Ok(observation), .. } => Some(
                observation.sample,
            ),
            _ => None,
        }
    }
}

impl Effect for EnduranceCall {
    open spec fn acts(self) -> bool {
        match self {
            EnduranceCall::Timestamp { .. } => false,
            EnduranceCall::ConfirmObserver { .. } => false,
            EnduranceCall::CaptureStartingConditions { .. } => false,
            EnduranceCall::EnterCustomControl { .. } => true,
            EnduranceCall::BeginSegment { .. } => true,
            EnduranceCall::StartWorkload { .. } => true,
            EnduranceCall::WaitUntil { .. } => false,
            EnduranceCall::CaptureObservation { .. } => false,
            EnduranceCall::StopWorkload { .. } => true,
            EnduranceCall::ContainWorkload { .. } => true,
            EnduranceCall::ForceContainWorkload { .. } => true,
            EnduranceCall::StopService { .. } => true,
            EnduranceCall::ContainService { .. } => true,
            EnduranceCall::ForceContainService { .. } => true,
            EnduranceCall::RestoreFan { .. } => true,
            EnduranceCall::ContainFanAtMaximum { .. } => true,
        }
    }
}

impl<'a, E: SupervisedEnduranceEnvironment + ?Sized> Trace<'a, E, EnduranceCall> {
    /// Calls `timestamp`.
    pub(crate) fn timestamp(&mut self, environment: &mut E) -> (answer: EvidenceTimestamp)
        requires
            old(self).follows(&*old(environment)),
        ensures
            final(self).follows(&*final(environment)),
            final(self).start() == old(self).start(),
            final(self).calls() == old(self).calls().push(EnduranceCall::Timestamp { answer }),
    {
        let ghost before = &*environment;
        let answer = environment.timestamp();
        self.add(Ghost(before), Ghost(EnduranceCall::Timestamp { answer }), environment);
        answer
    }

    /// Calls `confirm_observer`.
    pub(crate) fn confirm_observer(
        &mut self,
        environment: &mut E,
        deadline: u64,
    ) -> (answer: Result<EvidenceTimestamp, String>)
        requires
            old(self).follows(&*old(environment)),
        ensures
            final(self).follows(&*final(environment)),
            final(self).start() == old(self).start(),
            final(self).calls() == old(self).calls().push(
                EnduranceCall::ConfirmObserver { deadline, answer },
            ),
    {
        let ghost before = &*environment;
        let answer = environment.confirm_observer(deadline);
        self.add(
            Ghost(before),
            Ghost(EnduranceCall::ConfirmObserver { deadline, answer }),
            environment,
        );
        answer
    }

    /// Calls `capture_starting_conditions`.
    pub(crate) fn capture_starting_conditions(
        &mut self,
        environment: &mut E,
        deadline: u64,
    ) -> (answer: Result<CapturedMatchedWorkloadStartingConditions, String>)
        requires
            old(self).follows(&*old(environment)),
        ensures
            final(self).follows(&*final(environment)),
            final(self).start() == old(self).start(),
            final(self).calls() == old(self).calls().push(
                EnduranceCall::CaptureStartingConditions { deadline, answer },
            ),
    {
        let ghost before = &*environment;
        let answer = environment.capture_starting_conditions(deadline);
        self.add(
            Ghost(before),
            Ghost(EnduranceCall::CaptureStartingConditions { deadline, answer }),
            environment,
        );
        answer
    }

    /// Calls `enter_custom_control`.
    pub(crate) fn enter_custom_control(
        &mut self,
        environment: &mut E,
        deadline: u64,
    ) -> (answer: Result<(), String>)
        requires
            old(self).follows(&*old(environment)),
        ensures
            final(self).follows(&*final(environment)),
            final(self).start() == old(self).start(),
            final(self).calls() == old(self).calls().push(
                EnduranceCall::EnterCustomControl { deadline, answer },
            ),
    {
        let ghost before = &*environment;
        let answer = environment.enter_custom_control(deadline);
        self.add(
            Ghost(before),
            Ghost(EnduranceCall::EnterCustomControl { deadline, answer }),
            environment,
        );
        answer
    }

    /// Calls `begin_segment`.
    pub(crate) fn begin_segment(
        &mut self,
        environment: &mut E,
        segment: SupervisedEnduranceSegment,
        deadline: u64,
    ) -> (answer: Result<SupervisedEnduranceSegmentConfirmation, String>)
        requires
            old(self).follows(&*old(environment)),
        ensures
            final(self).follows(&*final(environment)),
            final(self).start() == old(self).start(),
            final(self).calls() == old(self).calls().push(
                EnduranceCall::BeginSegment { segment, deadline, answer },
            ),
    {
        let ghost before = &*environment;
        let answer = environment.begin_segment(segment, deadline);
        self.add(
            Ghost(before),
            Ghost(EnduranceCall::BeginSegment { segment, deadline, answer }),
            environment,
        );
        answer
    }

    /// Calls `start_workload`.
    pub(crate) fn start_workload(
        &mut self,
        environment: &mut E,
        workload: &WorkloadEvidence,
        deadline: u64,
    ) -> (answer: Result<EvidenceTimestamp, String>)
        requires
            old(self).follows(&*old(environment)),
        ensures
            final(self).follows(&*final(environment)),
            final(self).start() == old(self).start(),
            final(self).calls() == old(self).calls().push(
                EnduranceCall::StartWorkload { workload: *workload, deadline, answer },
            ),
    {
        let ghost before = &*environment;
        let answer = environment.start_workload(workload, deadline);
        self.add(
            Ghost(before),
            Ghost(EnduranceCall::StartWorkload { workload: *workload, deadline, answer }),
            environment,
        );
        answer
    }

    /// Calls `wait_until`.
    pub(crate) fn wait_until(
        &mut self,
        environment: &mut E,
        target: u64,
        deadline: u64,
    ) -> (answer: Result<(), String>)
        requires
            old(self).follows(&*old(environment)),
        ensures
            final(self).follows(&*final(environment)),
            final(self).start() == old(self).start(),
            final(self).calls() == old(self).calls().push(
                EnduranceCall::WaitUntil { target, deadline, answer },
            ),
    {
        let ghost before = &*environment;
        let answer = environment.wait_until(target, deadline);
        self.add(
            Ghost(before),
            Ghost(EnduranceCall::WaitUntil { target, deadline, answer }),
            environment,
        );
        answer
    }

    /// Calls `capture_observation`.
    pub(crate) fn capture_observation(
        &mut self,
        environment: &mut E,
        deadline: u64,
    ) -> (answer: Result<MatchedWorkloadObservation, String>)
        requires
            old(self).follows(&*old(environment)),
        ensures
            final(self).follows(&*final(environment)),
            final(self).start() == old(self).start(),
            final(self).calls() == old(self).calls().push(
                EnduranceCall::CaptureObservation { deadline, answer },
            ),
    {
        let ghost before = &*environment;
        let answer = environment.capture_observation(deadline);
        self.add(
            Ghost(before),
            Ghost(EnduranceCall::CaptureObservation { deadline, answer }),
            environment,
        );
        answer
    }

    /// Calls `stop_workload`.
    pub(crate) fn stop_workload(
        &mut self,
        environment: &mut E,
        deadline: u64,
    ) -> (answer: Result<SupervisedEnduranceProcessStopConfirmation, String>)
        requires
            old(self).follows(&*old(environment)),
        ensures
            final(self).follows(&*final(environment)),
            final(self).start() == old(self).start(),
            final(self).calls() == old(self).calls().push(
                EnduranceCall::StopWorkload { deadline, answer },
            ),
    {
        let ghost before = &*environment;
        let answer = environment.stop_workload(deadline);
        self.add(
            Ghost(before),
            Ghost(EnduranceCall::StopWorkload { deadline, answer }),
            environment,
        );
        answer
    }

    /// Calls `contain_workload`.
    pub(crate) fn contain_workload(
        &mut self,
        environment: &mut E,
        deadline: u64,
    ) -> (answer: Result<SupervisedEnduranceProcessStopConfirmation, String>)
        requires
            old(self).follows(&*old(environment)),
        ensures
            final(self).follows(&*final(environment)),
            final(self).start() == old(self).start(),
            final(self).calls() == old(self).calls().push(
                EnduranceCall::ContainWorkload { deadline, answer },
            ),
    {
        let ghost before = &*environment;
        let answer = environment.contain_workload(deadline);
        self.add(
            Ghost(before),
            Ghost(EnduranceCall::ContainWorkload { deadline, answer }),
            environment,
        );
        answer
    }

    /// Calls `force_contain_workload`.
    pub(crate) fn force_contain_workload(
        &mut self,
        environment: &mut E,
        deadline: u64,
    ) -> (answer: Result<SupervisedEnduranceProcessStopConfirmation, String>)
        requires
            old(self).follows(&*old(environment)),
        ensures
            final(self).follows(&*final(environment)),
            final(self).start() == old(self).start(),
            final(self).calls() == old(self).calls().push(
                EnduranceCall::ForceContainWorkload { deadline, answer },
            ),
    {
        let ghost before = &*environment;
        let answer = environment.force_contain_workload(deadline);
        self.add(
            Ghost(before),
            Ghost(EnduranceCall::ForceContainWorkload { deadline, answer }),
            environment,
        );
        answer
    }

    /// Calls `stop_service`.
    pub(crate) fn stop_service(
        &mut self,
        environment: &mut E,
        deadline: u64,
    ) -> (answer: Result<SupervisedEnduranceProcessStopConfirmation, String>)
        requires
            old(self).follows(&*old(environment)),
        ensures
            final(self).follows(&*final(environment)),
            final(self).start() == old(self).start(),
            final(self).calls() == old(self).calls().push(
                EnduranceCall::StopService { deadline, answer },
            ),
    {
        let ghost before = &*environment;
        let answer = environment.stop_service(deadline);
        self.add(
            Ghost(before),
            Ghost(EnduranceCall::StopService { deadline, answer }),
            environment,
        );
        answer
    }

    /// Calls `contain_service`.
    pub(crate) fn contain_service(
        &mut self,
        environment: &mut E,
        deadline: u64,
    ) -> (answer: Result<SupervisedEnduranceProcessStopConfirmation, String>)
        requires
            old(self).follows(&*old(environment)),
        ensures
            final(self).follows(&*final(environment)),
            final(self).start() == old(self).start(),
            final(self).calls() == old(self).calls().push(
                EnduranceCall::ContainService { deadline, answer },
            ),
    {
        let ghost before = &*environment;
        let answer = environment.contain_service(deadline);
        self.add(
            Ghost(before),
            Ghost(EnduranceCall::ContainService { deadline, answer }),
            environment,
        );
        answer
    }

    /// Calls `force_contain_service`.
    pub(crate) fn force_contain_service(
        &mut self,
        environment: &mut E,
        deadline: u64,
    ) -> (answer: Result<SupervisedEnduranceProcessStopConfirmation, String>)
        requires
            old(self).follows(&*old(environment)),
        ensures
            final(self).follows(&*final(environment)),
            final(self).start() == old(self).start(),
            final(self).calls() == old(self).calls().push(
                EnduranceCall::ForceContainService { deadline, answer },
            ),
    {
        let ghost before = &*environment;
        let answer = environment.force_contain_service(deadline);
        self.add(
            Ghost(before),
            Ghost(EnduranceCall::ForceContainService { deadline, answer }),
            environment,
        );
        answer
    }

    /// Calls `restore_fan`.
    pub(crate) fn restore_fan(
        &mut self,
        environment: &mut E,
        fan: EvidenceFan,
        deadline: u64,
    ) -> (answer: MatchedWorkloadFanRestoration)
        requires
            old(self).follows(&*old(environment)),
        ensures
            final(self).follows(&*final(environment)),
            final(self).start() == old(self).start(),
            final(self).calls() == old(self).calls().push(
                EnduranceCall::RestoreFan { fan, deadline, answer },
            ),
    {
        let ghost before = &*environment;
        let answer = environment.restore_fan(fan, deadline);
        self.add(
            Ghost(before),
            Ghost(EnduranceCall::RestoreFan { fan, deadline, answer }),
            environment,
        );
        answer
    }

    /// Calls `contain_fan_at_maximum`.
    pub(crate) fn contain_fan_at_maximum(
        &mut self,
        environment: &mut E,
        fan: EvidenceFan,
        deadline: u64,
    ) -> (answer: SupervisedEnduranceFanContainment)
        requires
            old(self).follows(&*old(environment)),
        ensures
            final(self).follows(&*final(environment)),
            final(self).start() == old(self).start(),
            final(self).calls() == old(self).calls().push(
                EnduranceCall::ContainFanAtMaximum { fan, deadline, answer },
            ),
    {
        let ghost before = &*environment;
        let answer = environment.contain_fan_at_maximum(fan, deadline);
        self.add(
            Ghost(before),
            Ghost(EnduranceCall::ContainFanAtMaximum { fan, deadline, answer }),
            environment,
        );
        answer
    }
}

/// The call that stops a process with an effort.
pub open spec fn stop_call(
    process: StoppedProcess,
    effort: StopEffort,
    deadline: u64,
    answer: Result<SupervisedEnduranceProcessStopConfirmation, String>,
) -> EnduranceCall {
    match (process, effort) {
        (StoppedProcess::Workload, StopEffort::Normal) => EnduranceCall::StopWorkload {
            deadline,
            answer,
        },
        (StoppedProcess::Workload, StopEffort::Escalated) => EnduranceCall::ContainWorkload {
            deadline,
            answer,
        },
        (StoppedProcess::Workload, StopEffort::Terminal) => EnduranceCall::ForceContainWorkload {
            deadline,
            answer,
        },
        (StoppedProcess::Service, StopEffort::Normal) => EnduranceCall::StopService {
            deadline,
            answer,
        },
        (StoppedProcess::Service, StopEffort::Escalated) => EnduranceCall::ContainService {
            deadline,
            answer,
        },
        (StoppedProcess::Service, StopEffort::Terminal) => EnduranceCall::ForceContainService {
            deadline,
            answer,
        },
    }
}

/// Whether a call needs the physical observer to have just confirmed.
pub open spec fn needs_observer(call: EnduranceCall) -> bool {
    call is EnterCustomControl || call is BeginSegment || call is StartWorkload
        || call is CaptureObservation
}

/// Whether the physical observer has just confirmed.
pub open spec fn observer_confirmed(calls: Seq<EnduranceCall>) -> bool {
    &&& calls.len() >= 2
    &&& calls[calls.len() - 2] matches EnduranceCall::ConfirmObserver { answer, .. } && answer is Ok
    &&& calls.last() is Timestamp
}

/// Whether every call that needs the physical observer directly follows a confirmation.
#[verifier::opaque]
pub open spec fn is_watched(calls: Seq<EnduranceCall>) -> bool {
    forall|i: int|
        0 <= i < calls.len() && needs_observer(#[trigger] calls[i]) ==> observer_confirmed(
            calls.take(i),
        )
}

/// Where nothing is called, nothing goes unwatched.
pub broadcast proof fn lemma_nothing_is_watched()
    ensures
        #[trigger] is_watched(Seq::empty()),
{
    reveal(is_watched);
}

/// One more call is watched if it needs to be.
pub broadcast proof fn lemma_one_more_is_watched(calls: Seq<EnduranceCall>, call: EnduranceCall)
    requires
        is_watched(calls),
        needs_observer(call) ==> observer_confirmed(calls),
    ensures
        #[trigger] is_watched(calls.push(call)),
{
    reveal(is_watched);
    let longer = calls.push(call);
    assert forall|i: int|
        0 <= i < longer.len() && needs_observer(#[trigger] longer[i]) implies observer_confirmed(
        longer.take(i),
    ) by {
        assert(longer.take(i) =~= calls.take(i));
        if i < calls.len() {
            assert(longer[i] == calls[i]);
        } else {
            assert(calls.take(i) =~= calls);
        }
    }
}

pub broadcast group group_endurance_calls {
    lemma_nothing_is_watched,
    lemma_one_more_is_watched,
}

} // verus!
