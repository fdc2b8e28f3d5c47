//! The calls of a Firmware Auto baseline.

use vstd::prelude::*;
use crate::baseline::{
    BaselineCleanupAttestation, BaselineObservation, CapturedBaselineStartingConditions,
    FirmwareAutoBaselineEnvironment,
};
use crate::evidence::{EvidenceTimestamp, TelemetrySampleEvidence, WorkloadEvidence};
use crate::observations::Observes;
use crate::trace::{CallOn, Effect, Trace};

verus! {

/// A call of a Firmware Auto baseline, with what was asked and what came back.
#[allow(inconsistent_fields)]
pub enum BaselineCall {
    Timestamp {
        answer: EvidenceTimestamp,
    },
    CaptureStartingConditions {
        answer: Result<CapturedBaselineStartingConditions, String>,
    },
    StartWorkload {
        workload: WorkloadEvidence,
        deadline: u64,
        answer: Result<EvidenceTimestamp, String>,
    },
    WaitUntil {
        target: u64,
        deadline: u64,
        answer: Result<(), String>,
    },
    CaptureObservation {
        deadline: u64,
        answer: Result<BaselineObservation, String>,
    },
    StopWorkload {
        deadline: u64,
        answer: Result<(), String>,
    },
    CleanupAfterWorkload {
        answer: Result<BaselineCleanupAttestation, String>,
    },
}

impl<E: FirmwareAutoBaselineEnvironment + ?Sized> CallOn<E> for BaselineCall {
    open spec fn came(self, before: &E, after: &E) -> bool {
        after.history() == before.history().push(self)
    }
}

impl Observes for BaselineCall {
    open spec fn sample(self) -> Option<TelemetrySampleEvidence> {
        match self {
            BaselineCall::CaptureObservation { answer: Ok(observation), .. } => Some(
                observation.sample,
            ),
            _ => None,
        }
    }
}

impl Effect for BaselineCall {
    open spec fn acts(self) -> bool {
        match self {
            BaselineCall::Timestamp { .. } => false,
            BaselineCall::CaptureStartingConditions { .. } => false,
            BaselineCall::StartWorkload { .. } => true,
            BaselineCall::WaitUntil { .. } => false,
            BaselineCall::CaptureObservation { .. } => false,
            BaselineCall::StopWorkload { .. } => true,
            BaselineCall::CleanupAfterWorkload { .. } => true,
        }
    }
}

impl<'a, E: FirmwareAutoBaselineEnvironment + ?Sized> Trace<'a, E, BaselineCall> {
    /// Calls `timestamp`.
    pub(crate) fn timestamp(&mut self, environment: &mut E) -> (answer: EvidenceTimestamp)
        requires
            old(self).follows(&*old(environment)),
        ensures
            final(self).follows(&*final(environment)),
            final(self).start() == old(self).start(),
            final(self).calls() == old(self).calls().push(BaselineCall::Timestamp { answer }),
    {
        let ghost before = &*environment;
        let answer = environment.timestamp();
        self.add(Ghost(before), Ghost(BaselineCall::Timestamp { answer }), environment);
        answer
    }

    /// Calls `capture_starting_conditions`.
    pub(crate) fn capture_starting_conditions(
        &mut self,
        environment: &mut E,
    ) -> (answer: Result<CapturedBaselineStartingConditions, String>)
        requires
            old(self).follows(&*old(environment)),
        ensures
            final(self).follows(&*final(environment)),
            final(self).start() == old(self).start(),
            final(self).calls() == old(self).calls().push(
                BaselineCall::CaptureStartingConditions { answer },
            ),
    {
        let ghost before = &*environment;
        let answer = environment.capture_starting_conditions();
        self.add(
            Ghost(before),
            Ghost(BaselineCall::CaptureStartingConditions { answer }),
            environment,
        );
        answer
    }

    /// Calls `start_workload`.
    pub(crate) fn start_workload(
        &mut self,
        environment: &mut E,
        workload: &WorkloadEvidence,
        deadline: u64,
    ) -> (answer: Result<EvidenceTimestamp, String>)
        requires
            old(self).follows(&*old(environment)),
        ensures
            final(self).follows(&*final(environment)),
            final(self).start() == old(self).start(),
            final(self).calls() == old(self).calls().push(
                BaselineCall::StartWorkload { workload: *workload, deadline, answer },
            ),
    {
        let ghost before = &*environment;
        let answer = environment.start_workload(workload, deadline);
        self.add(
            Ghost(before),
            Ghost(BaselineCall::StartWorkload { workload: *workload, deadline, answer }),
            environment,
        );
        answer
    }

    /// Calls `wait_until`.
    pub(crate) fn wait_until(
        &mut self,
        environment: &mut E,
        target: u64,
        deadline: u64,
    ) -> (answer: Result<(), String>)
        requires
            old(self).follows(&*old(environment)),
        ensures
            final(self).follows(&*final(environment)),
            final(self).start() == old(self).start(),
            final(self).calls() == old(self).calls().push(
                BaselineCall::WaitUntil { target, deadline, answer },
            ),
    {
        let ghost before = &*environment;
        let answer = environment.wait_until(target, deadline);
        self.add(
            Ghost(before),
            Ghost(BaselineCall::WaitUntil { target, deadline, answer }),
            environment,
        );
        answer
    }

    /// Calls `capture_observation`.
    pub(crate) fn capture_observation(
        &mut self,
        environment: &mut E,
        deadline: u64,
    ) -> (answer: Result<BaselineObservation, String>)
        requires
            old(self).follows(&*old(environment)),
        ensures
            final(self).follows(&*final(environment)),
            final(self).start() == old(self).start(),
            final(self).calls() == old(self).calls().push(
                BaselineCall::CaptureObservation { deadline, answer },
            ),
    {
        let ghost before = &*environment;
        let answer = environment.capture_observation(deadline);
        self.add(
            Ghost(before),
            Ghost(BaselineCall::CaptureObservation { deadline, answer }),
            environment,
        );
        answer
    }

    /// Calls `stop_workload`.
    pub(crate) fn stop_workload(
        &mut self,
        environment: &mut E,
        deadline: u64,
    ) -> (answer: Result<(), String>)
        requires
            old(self).follows(&*old(environment)),
        ensures
            final(self).follows(&*final(environment)),
            final(self).start() == old(self).start(),
            final(self).calls() == old(self).calls().push(
                BaselineCall::StopWorkload { deadline, answer },
            ),
    {
        let ghost before = &*environment;
        let answer = environment.stop_workload(deadline);
        self.add(
            Ghost(before),
            Ghost(BaselineCall::StopWorkload { deadline, answer }),
            environment,
        );
        answer
    }

    /// Calls `cleanup_after_workload`.
    pub(crate) fn cleanup_after_workload(
        &mut self,
        environment: &mut E,
    ) -> (answer: Result<BaselineCleanupAttestation, String>)
        requires
            old(self).follows(&*old(environment)),
        ensures
            final(self).follows(&*final(environment)),
            final(self).start() == old(self).start(),
            final(self).calls() == old(self).calls().push(
                BaselineCall::CleanupAfterWorkload { answer },
            ),
    {
        let ghost before = &*environment;
        let answer = environment.cleanup_after_workload();
        self.add(Ghost(before), Ghost(BaselineCall::CleanupAfterWorkload { answer }), environment);
        answer
    }
}

} // verus!
