//! The calls of a live lifecycle qualification.

use vstd::prelude::*;
use crate::evidence::{EvidenceFan, EvidenceTimestamp};
use crate::lifecycle::{
    LiveLifecycleCase, LiveLifecycleCaseObservation, LiveLifecycleFanAutoObservation,
    LiveLifecycleObserved, LiveLifecycleRebootArmObservation, LiveLifecycleRebootContinuation,
};
use crate::lifecycle_run::LiveLifecycleEnvironment;
use crate::trace::{CallOn, Effect, Trace};

verus! {

/// A call of a live lifecycle qualification, with what was asked and what came back.
#[allow(inconsistent_fields)]
pub enum LifecycleCall {
    Timestamp {
        answer: EvidenceTimestamp,
    },
    CurrentBootId {
        answer: Result<String, String>,
    },
    RunCase {
        case: LiveLifecycleCase,
        answer: Result<LiveLifecycleObserved<LiveLifecycleCaseObservation>, String>,
    },
    RestoreAfterCase {
        case: LiveLifecycleCase,
        answer: Result<LiveLifecycleObserved<EvidenceTimestamp>, String>,
    },
    ResumeAfterReboot {
        answer: Result<LiveLifecycleObserved<LiveLifecycleRebootContinuation>, String>,
    },
    ArmAfterReboot {
        answer: Result<LiveLifecycleObserved<LiveLifecycleRebootArmObservation>, String>,
    },
    RestoreAfterReboot {
        answer: Result<LiveLifecycleObserved<EvidenceTimestamp>, String>,
    },
    ConfirmFirmwareAuto {
        fan: EvidenceFan,
        answer: Result<LiveLifecycleFanAutoObservation, String>,
    },
}

impl<E: LiveLifecycleEnvironment + ?Sized> CallOn<E> for LifecycleCall {
    open spec fn came(self, before: &E, after: &E) -> bool {
        after.history() == before.history().push(self)
    }
}

impl Effect for LifecycleCall {
    open spec fn acts(self) -> bool {
        match self {
            LifecycleCall::Timestamp { .. } => false,
            LifecycleCall::CurrentBootId { .. } => false,
            LifecycleCall::RunCase { .. } => true,
            LifecycleCall::RestoreAfterCase { .. } => true,
            LifecycleCall::ResumeAfterReboot { .. } => true,
            LifecycleCall::ArmAfterReboot { .. } => true,
            LifecycleCall::RestoreAfterReboot { .. } => true,
            LifecycleCall::ConfirmFirmwareAuto { .. } => true,
        }
    }
}

impl<'a, E: LiveLifecycleEnvironment + ?Sized> Trace<'a, E, LifecycleCall> {
    /// Calls `timestamp`.
    pub(crate) fn timestamp(&mut self, environment: &mut E) -> (answer: EvidenceTimestamp)
        requires
            old(self).follows(&*old(environment)),
        ensures
            final(self).follows(&*final(environment)),
            final(self).start() == old(self).start(),
            final(self).calls() == old(self).calls().push(LifecycleCall::Timestamp { answer }),
    {
        let ghost before = &*environment;
        let answer = environment.timestamp();
        self.add(Ghost(before), Ghost(LifecycleCall::Timestamp { answer }), environment);
        answer
    }

    /// Calls `current_boot_id`.
    pub(crate) fn current_boot_id(
        &mut self,
        environment: &mut E,
    ) -> (answer: Result<String, String>)
        requires
            old(self).follows(&*old(environment)),
        ensures
            final(self).follows(&*final(environment)),
            final(self).start() == old(self).start(),
            final(self).calls() == old(self).calls().push(LifecycleCall::CurrentBootId { answer }),
    {
        let ghost before = &*environment;
        let answer = environment.current_boot_id();
        self.add(Ghost(before), Ghost(LifecycleCall::CurrentBootId { answer }), environment);
        answer
    }

    /// Calls `run_case`.
    pub(crate) fn run_case(
        &mut self,
        environment: &mut E,
        case: LiveLifecycleCase,
    ) -> (answer: Result<LiveLifecycleObserved<LiveLifecycleCaseObservation>, String>)
        requires
            old(self).follows(&*old(environment)),
        ensures
            final(self).follows(&*final(environment)),
            final(self).start() == old(self).start(),
            final(self).calls() == old(self).calls().push(LifecycleCall::RunCase { case, answer }),
    {
        let ghost before = &*environment;
        let answer = environment.run_case(case);
        self.add(Ghost(before), Ghost(LifecycleCall::RunCase { case, answer }), environment);
        answer
    }

    /// Calls `restore_after_case`.
    pub(crate) fn restore_after_case(
        &mut self,
        environment: &mut E,
        case: LiveLifecycleCase,
    ) -> (answer: Result<LiveLifecycleObserved<EvidenceTimestamp>, String>)
        requires
            old(self).follows(&*old(environment)),
        ensures
            final(self).follows(&*final(environment)),
            final(self).start() == old(self).start(),
            final(self).calls() == old(self).calls().push(
                LifecycleCall::RestoreAfterCase { case, answer },
            ),
    {
        let ghost before = &*environment;
        let answer = environment.restore_after_case(case);
        self.add(
            Ghost(before),
            Ghost(LifecycleCall::RestoreAfterCase { case, answer }),
            environment,
        );
        answer
    }

    /// Calls `resume_after_reboot`.
    pub(crate) fn resume_after_reboot(
        &mut self,
        environment: &mut E,
    ) -> (answer: Result<LiveLifecycleObserved<LiveLifecycleRebootContinuation>, String>)
        requires
            old(self).follows(&*old(environment)),
        ensures
            final(self).follows(&*final(environment)),
            final(self).start() == old(self).start(),
            final(self).calls() == old(self).calls().push(
                LifecycleCall::ResumeAfterReboot { answer },
            ),
    {
        let ghost before = &*environment;
        let answer = environment.resume_after_reboot();
        self.add(Ghost(before), Ghost(LifecycleCall::ResumeAfterReboot { answer }), environment);
        answer
    }

    /// Calls `arm_after_reboot`.
    pub(crate) fn arm_after_reboot(
        &mut self,
        environment: &mut E,
    ) -> (answer: Result<LiveLifecycleObserved<LiveLifecycleRebootArmObservation>, String>)
        requires
            old(self).follows(&*old(environment)),
        ensures
            final(self).follows(&*final(environment)),
            final(self).start() == old(self).start(),
            final(self).calls() == old(self).calls().push(LifecycleCall::ArmAfterReboot { answer }),
    {
        let ghost before = &*environment;
        let answer = environment.arm_after_reboot();
        self.add(Ghost(before), Ghost(LifecycleCall::ArmAfterReboot { answer }), environment);
        answer
    }

    /// Calls `restore_after_reboot`.
    pub(crate) fn restore_after_reboot(
        &mut self,
        environment: &mut E,
    ) -> (answer: Result<LiveLifecycleObserved<EvidenceTimestamp>, String>)
        requires
            old(self).follows(&*old(environment)),
        ensures
            final(self).follows(&*final(environment)),
            final(self).start() == old(self).start(),
            final(self).calls() == old(self).calls().push(
                LifecycleCall::RestoreAfterReboot { answer },
            ),
    {
        let ghost before = &*environment;
        let answer = environment.restore_after_reboot();
        self.add(Ghost(before), Ghost(LifecycleCall::RestoreAfterReboot { answer }), environment);
        answer
    }

    /// Calls `confirm_firmware_auto`.
    pub(crate) fn confirm_firmware_auto(
        &mut self,
        environment: &mut E,
        fan: EvidenceFan,
    ) -> (answer: Result<LiveLifecycleFanAutoObservation, String>)
        requires
            old(self).follows(&*old(environment)),
        ensures
            final(self).follows(&*final(environment)),
            final(self).start() == old(self).start(),
            final(self).calls() == old(self).calls().push(
                LifecycleCall::ConfirmFirmwareAuto { fan, answer },
            ),
    {
        let ghost before = &*environment;
        let answer = environment.confirm_firmware_auto(fan);
        self.add(
            Ghost(before),
            Ghost(LifecycleCall::ConfirmFirmwareAuto { fan, answer }),
            environment,
        );
        answer
    }
}

/// What a lifecycle qualification did to the machine, with what came back.
#[allow(inconsistent_fields)]
pub enum LifecycleAction {
    /// A case other than the reboot was performed.
    Attempt {
        case: LiveLifecycleCase,
        answer: Result<LiveLifecycleObserved<LiveLifecycleCaseObservation>, String>,
    },
    /// Firmware ownership was restored after it.
    Contain {
        case: LiveLifecycleCase,
        answer: Result<LiveLifecycleObserved<EvidenceTimestamp>, String>,
    },
    /// Both fans were read, the CPU fan first, and found in Firmware Auto or not.
    Gate {
        confirmed: bool,
        cpu: Result<LiveLifecycleFanAutoObservation, String>,
        gpu: Result<LiveLifecycleFanAutoObservation, String>,
    },
    /// The reboot case was resumed after the reboot.
    Resume { answer: Result<LiveLifecycleObserved<LiveLifecycleRebootContinuation>, String> },
    /// The controller was armed after the reboot.
    Arm { answer: Result<LiveLifecycleObserved<LiveLifecycleRebootArmObservation>, String> },
    /// Firmware ownership was restored after the reboot case.
    ContainReboot { answer: Result<LiveLifecycleObserved<EvidenceTimestamp>, String> },
}

/// Calls with those of an action behind them.
pub open spec fn calls_after(calls: Seq<LifecycleCall>, action: LifecycleAction) -> Seq<
    LifecycleCall,
> {
    match action {
        LifecycleAction::Attempt { case, answer } => calls.push(
            LifecycleCall::RunCase { case, answer },
        ),
        LifecycleAction::Contain { case, answer } => calls.push(
            LifecycleCall::RestoreAfterCase { case, answer },
        ),
        LifecycleAction::Gate { cpu, gpu, .. } => calls.push(
            LifecycleCall::ConfirmFirmwareAuto { fan: EvidenceFan::Cpu, answer: cpu },
        ).push(LifecycleCall::ConfirmFirmwareAuto { fan: EvidenceFan::Gpu, answer: gpu }),
        LifecycleAction::Resume { answer } => calls.push(
            LifecycleCall::ResumeAfterReboot { answer },
        ),
        LifecycleAction::Arm { answer } => calls.push(LifecycleCall::ArmAfterReboot { answer }),
        LifecycleAction::ContainReboot { answer } => calls.push(
            LifecycleCall::RestoreAfterReboot { answer },
        ),
    }
}

/// The calls that actions are, in order.
#[verifier::opaque]
pub open spec fn action_calls(actions: Seq<LifecycleAction>) -> Seq<LifecycleCall>
    decreases actions.len(),
{
    if actions.len() == 0 {
        Seq::empty()
    } else {
        calls_after(action_calls(actions.drop_last()), actions.last())
    }
}

/// No action is no call.
pub broadcast proof fn lemma_no_action_calls()
    ensures
        #[trigger] action_calls(Seq::empty()) == Seq::<LifecycleCall>::empty(),
{
    reveal(action_calls);
}

/// One more action is its calls behind the earlier ones.
pub broadcast proof fn lemma_calls_of_one_more(
    actions: Seq<LifecycleAction>,
    action: LifecycleAction,
)
    ensures
        #[trigger] action_calls(actions.push(action)) == calls_after(action_calls(actions), action),
{
    reveal(action_calls);
    assert(actions.push(action).drop_last() =~= actions);
}

pub broadcast group group_lifecycle_calls {
    lemma_no_action_calls,
    lemma_calls_of_one_more,
}

} // verus!
