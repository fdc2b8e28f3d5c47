//! The reboot case of a lifecycle qualification, step by step.

use vstd::prelude::*;
use vstd::string::*;
use crate::evidence::EvidenceTimestamp;
use crate::lifecycle::{
    attestations, boot_change, comes_strictly_after, identity_has_nonblank_character, not_before,
    reaches, reboot_boot_ids_are_valid, shows_something, strictly_follows, AttestationModel,
    LiveLifecycleCase, LiveLifecycleCaseObservation, LiveLifecycleFanAutoPair,
    LiveLifecycleObserved, LiveLifecycleObserverAttestation, LiveLifecycleRebootArmObservation,
    LiveLifecycleRebootContinuation,
};
use crate::lifecycle_rules::{
    case_failure, continuation_proves_reboot, coverage_error, validate_observer_attestations,
    validate_reboot_continuation,
};
use crate::lifecycle_steps::{append_attestations, failed, first_text};
use crate::text::{join, text_option};

verus! {

broadcast use vstd::string::group_string_axioms;

const UNVERIFIED_POST_REBOOT_BOOT_ID: &'static str = "unverified-post-reboot";

/// What the reboot case holds.
#[derive(Debug)]
pub struct RebootRun {
    pub observation: Option<LiveLifecycleCaseObservation>,
    pub observer_attestations: Vec<LiveLifecycleObserverAttestation>,
    pub error: Option<String>,
}

/// The contents of the reboot case.
pub struct RebootModel {
    pub observation: Option<LiveLifecycleCaseObservation>,
    pub coverage: Seq<AttestationModel>,
    pub error: Option<Seq<char>>,
}

impl View for RebootRun {
    type V = RebootModel;

    open spec fn view(&self) -> RebootModel {
        RebootModel {
            observation: self.observation,
            coverage: attestations(self.observer_attestations@),
            error: text_option(self.error),
        }
    }
}

/// The observation that a continuation begins.
pub open spec fn begun(continuation: LiveLifecycleRebootContinuation) -> LiveLifecycleCaseObservation {
    LiveLifecycleCaseObservation::Reboot {
        reboot_completed: continuation.reboot_completed,
        boot_id_before: continuation.boot_id_before,
        boot_id_after: continuation.boot_id_after,
        post_boot_at: continuation.post_boot_at,
        auto_before_arm: None,
        armed_at: None,
        controller_process_identity: None,
        restored_at: None,
        auto_after_arm: None,
    }
}

/// The reboot case after its continuation. `current_boot` is the boot that runs now.
pub open spec fn after_continuation(
    result: Result<LiveLifecycleObserved<LiveLifecycleRebootContinuation>, String>,
    current_boot: Option<Result<String, String>>,
    started_at: EvidenceTimestamp,
    completed_at: EvidenceTimestamp,
    boot_before: Seq<char>,
) -> RebootModel {
    match result {
        Ok(seen) => RebootModel {
            observation: Some(begun(seen.observation)),
            coverage: attestations(seen.observer_attestations@),
            error: match current_boot->0 {
                Ok(boot_now) => if continuation_proves_reboot(
                    begun(seen.observation),
                    started_at,
                    completed_at,
                    boot_before,
                    boot_now@,
                ) {
                    None
                } else {
                    Some(
                        "reboot failed: continuation must prove a distinct post-boot identity without arming Custom control"@,
                    )
                },
                Err(error) => Some(error@),
            },
        },
        Err(error) => RebootModel {
            observation: None,
            coverage: Seq::empty(),
            error: Some(case_failure(LiveLifecycleCase::Reboot, error@)),
        },
    }
}

/// The boot under which the evidence after the reboot is recorded.
pub open spec fn boot_after(observation: Option<LiveLifecycleCaseObservation>) -> Seq<char> {
    match observation {
        Some(LiveLifecycleCaseObservation::Reboot { boot_id_before, boot_id_after, .. }) =>
            if boot_change(boot_id_before@, boot_id_after@) {
                boot_id_after@
            } else {
                "unverified-post-reboot"@
            },
        _ => "unverified-post-reboot"@,
    }
}

/// Whether an arming came after the confirmation and by a named process.
pub open spec fn arm_is_ordered(
    arm: LiveLifecycleRebootArmObservation,
    gate_at: EvidenceTimestamp,
    completed_at: EvidenceTimestamp,
) -> bool {
    gate_at.monotonic_millis < arm.armed_at.monotonic_millis <= completed_at.monotonic_millis
        && shows_something(arm.controller_process_identity@)
}

/// An observation with its arming.
pub open spec fn with_arm(
    observation: Option<LiveLifecycleCaseObservation>,
    pair: LiveLifecycleFanAutoPair,
    arm: LiveLifecycleRebootArmObservation,
) -> Option<LiveLifecycleCaseObservation> {
    match observation {
        Some(
            LiveLifecycleCaseObservation::Reboot {
                reboot_completed,
                boot_id_before,
                boot_id_after,
                post_boot_at,
                auto_before_arm,
                armed_at,
                controller_process_identity,
                restored_at,
                auto_after_arm,
            },
        ) => Some(
            LiveLifecycleCaseObservation::Reboot {
                reboot_completed,
                boot_id_before,
                boot_id_after,
                post_boot_at,
                auto_before_arm: Some(pair),
                armed_at: Some(arm.armed_at),
                controller_process_identity: Some(arm.controller_process_identity),
                restored_at,
                auto_after_arm,
            },
        ),
        other => other,
    }
}

/// The reboot case after the controller was armed.
pub open spec fn after_arm(
    m: RebootModel,
    pair: LiveLifecycleFanAutoPair,
    gate_at: EvidenceTimestamp,
    completed_at: EvidenceTimestamp,
    result: Result<LiveLifecycleObserved<LiveLifecycleRebootArmObservation>, String>,
) -> RebootModel {
    match result {
        Ok(seen) => {
            let covered = RebootModel {
                coverage: m.coverage + attestations(seen.observer_attestations@),
                ..m
            };
            if arm_is_ordered(seen.observation, gate_at, completed_at) {
                RebootModel {
                    observation: with_arm(m.observation, pair, seen.observation),
                    ..covered
                }
            } else {
                RebootModel {
                    error: Some(
                        "reboot failed: controller arming evidence was not fresh and ordered after the independent Auto gate"@,
                    ),
                    ..covered
                }
            }
        },
        Err(error) => RebootModel {
            error: Some("reboot failed: cannot arm controller: "@ + error@),
            ..m
        },
    }
}

/// The reboot case where the controller must not be armed.
pub open spec fn after_refused_arm(m: RebootModel, confirmed: bool) -> RebootModel {
    RebootModel {
        error: first_text(
            m.error,
            Some(
                if confirmed {
                    "reboot failed: post-boot CPU/GPU endpoint identities were ambiguous or role-swapped"@
                } else {
                    "reboot failed: independent post-boot Auto gate blocked controller arming"@
                },
            ),
        ),
        ..m
    }
}

/// When the controller was armed.
pub open spec fn armed_at_of(observation: Option<LiveLifecycleCaseObservation>) -> Option<
    EvidenceTimestamp,
> {
    match observation {
        Some(LiveLifecycleCaseObservation::Reboot { armed_at, .. }) => armed_at,
        _ => None,
    }
}

/// Whether a restoration came after the arming, if there was one, and before its own completion.
pub open spec fn restore_is_ordered(
    restored_at: EvidenceTimestamp,
    armed_at: Option<EvidenceTimestamp>,
    completed_at: EvidenceTimestamp,
) -> bool {
    &&& reaches(restored_at, completed_at)
    &&& armed_at matches Some(armed) ==> strictly_follows(armed, restored_at)
}

/// An observation with its restoration.
pub open spec fn with_restore(
    observation: Option<LiveLifecycleCaseObservation>,
    at: EvidenceTimestamp,
) -> Option<LiveLifecycleCaseObservation> {
    match observation {
        Some(
            LiveLifecycleCaseObservation::Reboot {
                reboot_completed,
                boot_id_before,
                boot_id_after,
                post_boot_at,
                auto_before_arm,
                armed_at,
                controller_process_identity,
                restored_at,
                auto_after_arm,
            },
        ) => Some(
            LiveLifecycleCaseObservation::Reboot {
                reboot_completed,
                boot_id_before,
                boot_id_after,
                post_boot_at,
                auto_before_arm,
                armed_at,
                controller_process_identity,
                restored_at: Some(at),
                auto_after_arm,
            },
        ),
        other => other,
    }
}

/// The reboot case after the restoration, and the moment from which the last confirmation counts.
pub open spec fn after_restore(
    m: RebootModel,
    completed_at: EvidenceTimestamp,
    result: Result<LiveLifecycleObserved<EvidenceTimestamp>, String>,
) -> (RebootModel, EvidenceTimestamp) {
    match result {
        Ok(seen) => {
            let covered = RebootModel {
                coverage: m.coverage + attestations(seen.observer_attestations@),
                ..m
            };
            if restore_is_ordered(seen.observation, armed_at_of(m.observation), completed_at) {
                (
                    RebootModel {
                        observation: with_restore(m.observation, seen.observation),
                        ..covered
                    },
                    seen.observation,
                )
            } else {
                (
                    RebootModel {
                        error: first_text(
                            m.error,
                            Some(
                                "reboot failed: post-arm restoration evidence was not fresh and ordered"@,
                            ),
                        ),
                        ..covered
                    },
                    completed_at,
                )
            }
        },
        Err(error) => (
            RebootModel {
                error: first_text(
                    m.error,
                    Some("reboot failed: cannot restore after arming: "@ + error@),
                ),
                ..m
            },
            completed_at,
        ),
    }
}

/// An observation with its last confirmation.
pub open spec fn with_last_gate(
    observation: Option<LiveLifecycleCaseObservation>,
    pair: Option<LiveLifecycleFanAutoPair>,
) -> Option<LiveLifecycleCaseObservation> {
    match observation {
        Some(
            LiveLifecycleCaseObservation::Reboot {
                reboot_completed,
                boot_id_before,
                boot_id_after,
                post_boot_at,
                auto_before_arm,
                armed_at,
                controller_process_identity,
                restored_at,
                auto_after_arm,
            },
        ) => Some(
            LiveLifecycleCaseObservation::Reboot {
                reboot_completed,
                boot_id_before,
                boot_id_after,
                post_boot_at,
                auto_before_arm,
                armed_at,
                controller_process_identity,
                restored_at,
                auto_after_arm: pair,
            },
        ),
        other => other,
    }
}

/// The reboot case after its last confirmation.
pub open spec fn after_last_gate(
    m: RebootModel,
    pair: Option<LiveLifecycleFanAutoPair>,
    confirmed: bool,
    started_at: EvidenceTimestamp,
    completed_at: EvidenceTimestamp,
) -> RebootModel {
    let gated = if confirmed {
        RebootModel { observation: with_last_gate(m.observation, pair), ..m }
    } else {
        RebootModel {
            error: first_text(
                m.error,
                Some("reboot failed: terminal Firmware Auto gate failed after post-boot arming"@),
            ),
            ..m
        }
    };
    match gated.observation {
        Some(observation) => RebootModel {
            error: first_text(
                gated.error,
                coverage_error(
                    LiveLifecycleCase::Reboot,
                    gated.coverage,
                    observation,
                    started_at,
                    completed_at,
                ),
            ),
            ..gated
        },
        None => gated,
    }
}

impl RebootRun {
    /// Begins the reboot case after the reboot.
    pub fn begin(
        result: Result<LiveLifecycleObserved<LiveLifecycleRebootContinuation>, String>,
        current_boot: Option<Result<String, String>>,
        started_at: EvidenceTimestamp,
        completed_at: EvidenceTimestamp,
        boot_before: &str,
    ) -> (run: RebootRun)
        requires
            result is Ok ==> current_boot is Some,
        ensures
            run@ == after_continuation(
                result,
                current_boot,
                started_at,
                completed_at,
                boot_before@,
            ),
    {
        match result {
            Err(text) => {
                let run = RebootRun {
                    observation: None,
                    observer_attestations: Vec::new(),
                    error: Some(failed(LiveLifecycleCase::Reboot, text.as_str())),
                };
                assert(run@.coverage =~= Seq::empty());
                run
            },
            Ok(seen) => {
                let continuation = seen.observation;
                let observation = LiveLifecycleCaseObservation::Reboot {
                    reboot_completed: continuation.reboot_completed,
                    boot_id_before: continuation.boot_id_before,
                    boot_id_after: continuation.boot_id_after,
                    post_boot_at: continuation.post_boot_at,
                    auto_before_arm: None,
                    armed_at: None,
                    controller_process_identity: None,
                    restored_at: None,
                    auto_after_arm: None,
                };
                let error = match current_boot.unwrap() {
                    Ok(boot_now) => match validate_reboot_continuation(
                        &observation,
                        started_at,
                        completed_at,
                        boot_before,
                        boot_now.as_str(),
                    ) {
                        Ok(()) => None,
                        Err(text) => Some(text),
                    },
                    Err(text) => Some(text),
                };
                RebootRun {
                    observation: Some(observation),
                    observer_attestations: seen.observer_attestations,
                    error,
                }
            },
        }
    }

    /// The boot under which the evidence after the reboot is recorded.
    pub fn boot_id(&self) -> (boot_id: String)
        ensures
            boot_id@ == boot_after(self@.observation),
    {
        match &self.observation {
            Some(
                LiveLifecycleCaseObservation::Reboot { boot_id_before, boot_id_after, .. },
            ) => if reboot_boot_ids_are_valid(boot_id_before.as_str(), boot_id_after.as_str()) {
                boot_id_after.clone()
            } else {
                UNVERIFIED_POST_REBOOT_BOOT_ID.to_owned()
            },
            _ => UNVERIFIED_POST_REBOOT_BOOT_ID.to_owned(),
        }
    }

    /// Records the arming of the controller.
    pub fn record_arm(
        &mut self,
        pair: LiveLifecycleFanAutoPair,
        gate_at: EvidenceTimestamp,
        completed_at: EvidenceTimestamp,
        result: Result<LiveLifecycleObserved<LiveLifecycleRebootArmObservation>, String>,
    )
        ensures
            final(self)@ == after_arm(old(self)@, pair, gate_at, completed_at, result),
    {
        match result {
            Err(text) => {
                self.error = Some(
                    join("reboot failed: cannot arm controller: ", text.as_str()),
                );
            },
            Ok(seen) => {
                append_attestations(&mut self.observer_attestations, seen.observer_attestations);
                let arm = seen.observation;
                if arm.armed_at.monotonic_millis > gate_at.monotonic_millis
                    && arm.armed_at.monotonic_millis <= completed_at.monotonic_millis
                    && identity_has_nonblank_character(arm.controller_process_identity.as_str()) {
                    let observation = self.observation.take();
                    self.observation = match observation {
                        Some(
                            LiveLifecycleCaseObservation::Reboot {
                                reboot_completed,
                                boot_id_before,
                                boot_id_after,
                                post_boot_at,
                                auto_before_arm: _,
                                armed_at: _,
                                controller_process_identity: _,
                                restored_at,
                                auto_after_arm,
                            },
                        ) => Some(
                            LiveLifecycleCaseObservation::Reboot {
                                reboot_completed,
                                boot_id_before,
                                boot_id_after,
                                post_boot_at,
                                auto_before_arm: Some(pair),
                                armed_at: Some(arm.armed_at),
                                controller_process_identity: Some(arm.controller_process_identity),
                                restored_at,
                                auto_after_arm,
                            },
                        ),
                        other => other,
                    };
                } else {
                    self.error = Some(
                        "reboot failed: controller arming evidence was not fresh and ordered after the independent Auto gate".to_owned(),
                    );
                }
            },
        }
    }

    /// Records that the controller was not armed.
    pub fn record_refused_arm(&mut self, confirmed: bool)
        ensures
            final(self)@ == after_refused_arm(old(self)@, confirmed),
    {
        if self.error.is_none() {
            self.error = Some(
                if confirmed {
                    "reboot failed: post-boot CPU/GPU endpoint identities were ambiguous or role-swapped".to_owned()
                } else {
                    "reboot failed: independent post-boot Auto gate blocked controller arming".to_owned()
                },
            );
        }
    }

    /// Records the restoration, and gives the moment from which the last confirmation counts.
    pub fn record_restore(
        &mut self,
        completed_at: EvidenceTimestamp,
        result: Result<LiveLifecycleObserved<EvidenceTimestamp>, String>,
    ) -> (restored_at: EvidenceTimestamp)
        ensures
            (final(self)@, restored_at) == after_restore(old(self)@, completed_at, result),
    {
        match result {
            Err(text) => {
                if self.error.is_none() {
                    self.error = Some(
                        join("reboot failed: cannot restore after arming: ", text.as_str()),
                    );
                }
                completed_at
            },
            Ok(seen) => {
                append_attestations(&mut self.observer_attestations, seen.observer_attestations);
                let at = seen.observation;
                let follows_arm = match &self.observation {
                    Some(LiveLifecycleCaseObservation::Reboot { armed_at, .. }) => match armed_at {
                        Some(armed) => comes_strictly_after(*armed, at),
                        None => true,
                    },
                    _ => true,
                };
                if not_before(at, completed_at) && follows_arm {
                    let observation = self.observation.take();
                    self.observation = match observation {
                        Some(
                            LiveLifecycleCaseObservation::Reboot {
                                reboot_completed,
                                boot_id_before,
                                boot_id_after,
                                post_boot_at,
                                auto_before_arm,
                                armed_at,
                                controller_process_identity,
                                restored_at: _,
                                auto_after_arm,
                            },
                        ) => Some(
                            LiveLifecycleCaseObservation::Reboot {
                                reboot_completed,
                                boot_id_before,
                                boot_id_after,
                                post_boot_at,
                                auto_before_arm,
                                armed_at,
                                controller_process_identity,
                                restored_at: Some(at),
                                auto_after_arm,
                            },
                        ),
                        other => other,
                    };
                    at
                } else {
                    if self.error.is_none() {
                        self.error = Some(
                            "reboot failed: post-arm restoration evidence was not fresh and ordered".to_owned(),
                        );
                    }
                    completed_at
                }
            },
        }
    }

    /// Records the last confirmation and checks the observer coverage.
    pub fn record_last_gate(
        &mut self,
        pair: Option<LiveLifecycleFanAutoPair>,
        confirmed: bool,
        started_at: EvidenceTimestamp,
        completed_at: EvidenceTimestamp,
    )
        ensures
            final(self)@ == after_last_gate(
                old(self)@,
                pair,
                confirmed,
                started_at,
                completed_at,
            ),
    {
        if confirmed {
            let observation = self.observation.take();
            self.observation = match observation {
                Some(
                    LiveLifecycleCaseObservation::Reboot {
                        reboot_completed,
                        boot_id_before,
                        boot_id_after,
                        post_boot_at,
                        auto_before_arm,
                        armed_at,
                        controller_process_identity,
                        restored_at,
                        auto_after_arm: _,
                    },
                ) => Some(
                    LiveLifecycleCaseObservation::Reboot {
                        reboot_completed,
                        boot_id_before,
                        boot_id_after,
                        post_boot_at,
                        auto_before_arm,
                        armed_at,
                        controller_process_identity,
                        restored_at,
                        auto_after_arm: pair,
                    },
                ),
                other => other,
            };
        } else if self.error.is_none() {
            self.error = Some(
                "reboot failed: terminal Firmware Auto gate failed after post-boot arming".to_owned(),
            );
        }
        match &self.observation {
            Some(observation) => {
                match validate_observer_attestations(
                    LiveLifecycleCase::Reboot,
                    self.observer_attestations.as_slice(),
                    observation,
                    started_at,
                    completed_at,
                ) {
                    Ok(()) => {},
                    Err(text) => {
                        if self.error.is_none() {
                            self.error = Some(text);
                        }
                    },
                }
            },
            None => {},
        }
    }
}

} // verus!
