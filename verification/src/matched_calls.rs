//! The calls of a matched workload.

use vstd::prelude::*;
use crate::evidence::{EvidenceFan, EvidenceTimestamp, TelemetrySampleEvidence, WorkloadEvidence};
use crate::matched_control::MatchedWorkloadObservation;
use crate::matched_workload::{
    CapturedMatchedWorkloadStartingConditions, MatchedWorkloadEnvironment,
    MatchedWorkloadFanRestoration,
};
use crate::trace::{CallOn, Effect, Trace};

use crate::observations::Observes;

verus! {

/// A call of a matched workload, with what was asked and what came back.
#[allow(inconsistent_fields)]
pub enum MatchedCall {
    Timestamp {
        answer: EvidenceTimestamp,
    },
    CaptureStartingConditions {
        answer: Result<CapturedMatchedWorkloadStartingConditions, String>,
    },
    EnterCustomControl {
        deadline: u64,
        answer: Result<(), String>,
    },
    StartWorkload {
        workload: WorkloadEvidence,
        deadline: u64,
        answer: Result<EvidenceTimestamp, String>,
    },
    WaitUntil {
        target: u64,
        deadline: u64,
        answer: Result<(), String>,
    },
    CaptureObservation {
        deadline: u64,
        answer: Result<MatchedWorkloadObservation, String>,
    },
    StopWorkload {
        deadline: u64,
        answer: Result<(), String>,
    },
    RestoreFan {
        fan: EvidenceFan,
        deadline: u64,
        answer: MatchedWorkloadFanRestoration,
    },
}

impl<E: MatchedWorkloadEnvironment + ?Sized> CallOn<E> for MatchedCall {
    open spec fn came(self, before: &E, after: &E) -> bool {
        after.history() == before.history().push(self)
    }
}

impl Observes for MatchedCall {
    open spec fn sample(self) -> Option<TelemetrySampleEvidence> {
        match self {
            MatchedCall::CaptureObservation { answer: Ok(observation), .. } => Some(
                observation.sample,
            ),
            _ => None,
        }
    }
}

impl Effect for MatchedCall {
    open spec fn acts(self) -> bool {
        match self {
            MatchedCall::Timestamp { .. } => false,
            MatchedCall::CaptureStartingConditions { .. } => false,
            MatchedCall::EnterCustomControl { .. } => true,
            MatchedCall::StartWorkload { .. } => true,
            MatchedCall::WaitUntil { .. } => false,
            MatchedCall::CaptureObservation { .. } => false,
            MatchedCall::StopWorkload { .. } => true,
            MatchedCall::RestoreFan { .. } => true,
        }
    }
}

impl<'a, E: MatchedWorkloadEnvironment + ?Sized> Trace<'a, E, MatchedCall> {
    /// Calls `timestamp`.
    pub(crate) fn timestamp(&mut self, environment: &mut E) -> (answer: EvidenceTimestamp)
        requires
            old(self).follows(&*old(environment)),
        ensures
            final(self).follows(&*final(environment)),
            final(self).start() == old(self).start(),
            final(self).calls() == old(self).calls().push(MatchedCall::Timestamp { answer }),
    {
        let ghost before = &*environment;
        let answer = environment.timestamp();
        self.add(Ghost(before), Ghost(MatchedCall::Timestamp { answer }), environment);
        answer
    }

    /// Calls `capture_starting_conditions`.
    pub(crate) fn capture_starting_conditions(
        &mut self,
        environment: &mut E,
    ) -> (answer: Result<CapturedMatchedWorkloadStartingConditions, String>)
        requires
            old(self).follows(&*old(environment)),
        ensures
            final(self).follows(&*final(environment)),
            final(self).start() == old(self).start(),
            final(self).calls() == old(self).calls().push(
                MatchedCall::CaptureStartingConditions { answer },
            ),
    {
        let ghost before = &*environment;
        let answer = environment.capture_starting_conditions();
        self.add(
            Ghost(before),
            Ghost(MatchedCall::CaptureStartingConditions { answer }),
            environment,
        );
        answer
    }

    /// Calls `enter_custom_control`.
    pub(crate) fn enter_custom_control(
        &mut self,
        environment: &mut E,
        deadline: u64,
    ) -> (answer: Result<(), String>)
        requires
            old(self).follows(&*old(environment)),
        ensures
            final(self).follows(&*final(environment)),
            final(self).start() == old(self).start(),
            final(self).calls() == old(self).calls().push(
                MatchedCall::EnterCustomControl { deadline, answer },
            ),
    {
        let ghost before = &*environment;
        let answer = environment.enter_custom_control(deadline);
        self.add(
            Ghost(before),
            Ghost(MatchedCall::EnterCustomControl { deadline, answer }),
            environment,
        );
        answer
    }

    /// Calls `start_workload`.
    pub(crate) fn start_workload(
        &mut self,
        environment: &mut E,
        workload: &WorkloadEvidence,
        deadline: u64,
    ) -> (answer: Result<EvidenceTimestamp, String>)
        requires
            old(self).follows(&*old(environment)),
        ensures
            final(self).follows(&*final(environment)),
            final(self).start() == old(self).start(),
            final(self).calls() == old(self).calls().push(
                MatchedCall::StartWorkload { workload: *workload, deadline, answer },
            ),
    {
        let ghost before = &*environment;
        let answer = environment.start_workload(workload, deadline);
        self.add(
            Ghost(before),
            Ghost(MatchedCall::StartWorkload { workload: *workload, deadline, answer }),
            environment,
        );
        answer
    }

    /// Calls `wait_until`.
    pub(crate) fn wait_until(
        &mut self,
        environment: &mut E,
        target: u64,
        deadline: u64,
    ) -> (answer: Result<(), String>)
        requires
            old(self).follows(&*old(environment)),
        ensures
            final(self).follows(&*final(environment)),
            final(self).start() == old(self).start(),
            final(self).calls() == old(self).calls().push(
                MatchedCall::WaitUntil { target, deadline, answer },
            ),
    {
        let ghost before = &*environment;
        let answer = environment.wait_until(target, deadline);
        self.add(
            Ghost(before),
            Ghost(MatchedCall::WaitUntil { target, deadline, answer }),
            environment,
        );
        answer
    }

    /// Calls `capture_observation`.
    pub(crate) fn capture_observation(
        &mut self,
        environment: &mut E,
        deadline: u64,
    ) -> (answer: Result<MatchedWorkloadObservation, String>)
        requires
            old(self).follows(&*old(environment)),
        ensures
            final(self).follows(&*final(environment)),
            final(self).start() == old(self).start(),
            final(self).calls() == old(self).calls().push(
                MatchedCall::CaptureObservation { deadline, answer },
            ),
    {
        let ghost before = &*environment;
        let answer = environment.capture_observation(deadline);
        self.add(
            Ghost(before),
            Ghost(MatchedCall::CaptureObservation { deadline, answer }),
            environment,
        );
        answer
    }

    /// Calls `stop_workload`.
    pub(crate) fn stop_workload(
        &mut self,
        environment: &mut E,
        deadline: u64,
    ) -> (answer: Result<(), String>)
        requires
            old(self).follows(&*old(environment)),
        ensures
            final(self).follows(&*final(environment)),
            final(self).start() == old(self).start(),
            final(self).calls() == old(self).calls().push(
                MatchedCall::StopWorkload { deadline, answer },
            ),
    {
        let ghost before = &*environment;
        let answer = environment.stop_workload(deadline);
        self.add(Ghost(before), Ghost(MatchedCall::StopWorkload { deadline, answer }), environment);
        answer
    }

    /// Calls `restore_fan`.
    pub(crate) fn restore_fan(
        &mut self,
        environment: &mut E,
        fan: EvidenceFan,
        deadline: u64,
    ) -> (answer: MatchedWorkloadFanRestoration)
        requires
            old(self).follows(&*old(environment)),
        ensures
            final(self).follows(&*final(environment)),
            final(self).start() == old(self).start(),
            final(self).calls() == old(self).calls().push(
                MatchedCall::RestoreFan { fan, deadline, answer },
            ),
    {
        let ghost before = &*environment;
        let answer = environment.restore_fan(fan, deadline);
        self.add(
            Ghost(before),
            Ghost(MatchedCall::RestoreFan { fan, deadline, answer }),
            environment,
        );
        answer
    }
}

} // verus!
