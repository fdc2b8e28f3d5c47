//! The Firmware Auto confirmation between lifecycle cases.

use vstd::prelude::*;
use vstd::string::*;
use crate::evidence::{
    EvidenceFan, EvidenceTimestamp, FanReadbackEvidence, FanReadbackField, FaultEvidence,
    ObservationOutcome,
};
use crate::lifecycle::{
    identity_has_nonblank_character, not_before, reaches, shows_something,
    LiveLifecycleFanAutoObservation, LiveLifecycleFanAutoPair,
};
use crate::lifecycle_rules::{
    distinct_identities, identities, identities_are_distinct, pair_identities, FanIdentities,
};
use crate::matched_control::{fan_name, fan_text};
use crate::run_log::{fault_list, readback_list, FaultModel, ReadbackModel};
use crate::text::{join, join3, same_text};

verus! {

broadcast use vstd::string::group_string_axioms;

/// A moment that comes after another one on the monotonic clock: the observed one where it does.
pub open spec fn strictly_after(
    observed: EvidenceTimestamp,
    not_before: EvidenceTimestamp,
) -> EvidenceTimestamp {
    if observed.monotonic_millis <= not_before.monotonic_millis {
        EvidenceTimestamp {
            monotonic_millis: if not_before.monotonic_millis == u64::MAX {
                u64::MAX
            } else {
                (not_before.monotonic_millis + 1) as u64
            },
            wall_unix_millis: if observed.wall_unix_millis >= not_before.wall_unix_millis {
                observed.wall_unix_millis
            } else {
                not_before.wall_unix_millis
            },
        }
    } else {
        observed
    }
}

/// The later of two moments on the monotonic clock, the first where they coincide.
pub open spec fn later_of(left: EvidenceTimestamp, right: EvidenceTimestamp) -> EvidenceTimestamp {
    if left.monotonic_millis >= right.monotonic_millis {
        left
    } else {
        right
    }
}

/// Finds [`strictly_after`].
pub(crate) fn strictly_after_timestamp(
    observed: EvidenceTimestamp,
    not_before: EvidenceTimestamp,
) -> (at: EvidenceTimestamp)
    ensures
        at == strictly_after(observed, not_before),
{
    if observed.monotonic_millis <= not_before.monotonic_millis {
        EvidenceTimestamp {
            monotonic_millis: not_before.monotonic_millis.saturating_add(1),
            wall_unix_millis: if observed.wall_unix_millis >= not_before.wall_unix_millis {
                observed.wall_unix_millis
            } else {
                not_before.wall_unix_millis
            },
        }
    } else {
        observed
    }
}

/// Finds [`later_of`].
pub(crate) fn later_timestamp(left: EvidenceTimestamp, right: EvidenceTimestamp) -> (at:
    EvidenceTimestamp)
    ensures
        at == later_of(left, right),
{
    if left.monotonic_millis >= right.monotonic_millis {
        left
    } else {
        right
    }
}

/// What reading one fan's enable endpoint yielded.
#[derive(Debug)]
pub struct FanReading {
    pub requested_at: EvidenceTimestamp,
    /// The observation, or the message of the failed read.
    pub result: Result<LiveLifecycleFanAutoObservation, String>,
    pub completed_at: EvidenceTimestamp,
}

/// What a confirmation is held against.
#[derive(Debug)]
pub struct GateContext {
    pub not_before: EvidenceTimestamp,
    pub expected_identities: Option<(String, String)>,
    pub boot_id: String,
    /// Whether the clocks may have started anew.
    pub allow_clock_reset: bool,
}

/// The identities that a confirmation must come from.
pub open spec fn expected_of(expected: Option<(String, String)>) -> Option<FanIdentities> {
    match expected {
        Some(pair) => Some(identities(pair)),
        None => None,
    }
}

/// The name under which an unread endpoint is recorded.
pub open spec fn unresolved_target(fan: EvidenceFan) -> Seq<char> {
    match fan {
        EvidenceFan::Cpu => "cpu-enable-target-unresolved"@,
        EvidenceFan::Gpu => "gpu-enable-target-unresolved"@,
    }
}

/// Whether an observation was made freshly, between its request and its completion and not before
/// a given moment.
pub open spec fn is_timely(
    observation: LiveLifecycleFanAutoObservation,
    requested_at: EvidenceTimestamp,
    completed_at: EvidenceTimestamp,
    not_before: EvidenceTimestamp,
) -> bool {
    &&& observation.fresh
    &&& reaches(requested_at, observation.observed_at)
    &&& reaches(observation.observed_at, completed_at)
    &&& reaches(not_before, observation.observed_at)
}

/// The moment under which a reading is recorded.
pub open spec fn reading_at(
    reading: FanReading,
    not_before: EvidenceTimestamp,
    allow_clock_reset: bool,
) -> EvidenceTimestamp {
    let source = match reading.result {
        Ok(observation) => observation.observed_at,
        Err(_) => reading.completed_at,
    };
    if allow_clock_reset {
        source
    } else {
        strictly_after(source, not_before)
    }
}

/// Whether a reading is timely and names its endpoint.
pub open spec fn reading_is_valid(reading: FanReading, not_before: EvidenceTimestamp) -> bool {
    reading.result matches Ok(observation) && is_timely(
        observation,
        reading.requested_at,
        reading.completed_at,
        not_before,
    ) && shows_something(observation.endpoint_identity@)
}

/// The identity under which an endpoint is recorded that did not name itself.
pub open spec fn fallback_identity(expected: Option<Seq<char>>, fan: EvidenceFan) -> Seq<char> {
    match expected {
        Some(identity) => identity,
        None => unresolved_target(fan),
    }
}

/// The readback that a reading leaves.
pub open spec fn reading_readback(
    reading: FanReading,
    fan: EvidenceFan,
    not_before: EvidenceTimestamp,
    expected: Option<Seq<char>>,
    boot_id: Seq<char>,
    allow_clock_reset: bool,
) -> ReadbackModel {
    let at = reading_at(reading, not_before, allow_clock_reset);
    match reading.result {
        Ok(observation) => {
            let named = shows_something(observation.endpoint_identity@);
            ReadbackModel {
                timestamp: at,
                source_timestamp: Some(observation.observed_at),
                fresh: Some(observation.fresh),
                boot_id: Some(boot_id),
                fan,
                field: FanReadbackField::Enable,
                value: if named {
                    observation.enable_readback
                } else {
                    None
                },
                endpoint_identity: if named {
                    observation.endpoint_identity@
                } else {
                    fallback_identity(expected, fan)
                },
                outcome: if reading_is_valid(reading, not_before) && observation.enable_readback
                    == Some(2u32) {
                    ObservationOutcome::Confirmed
                } else if named && observation.enable_readback is Some {
                    ObservationOutcome::Unexpected
                } else {
                    ObservationOutcome::Unreadable
                },
                phase: None,
            }
        },
        Err(_) => ReadbackModel {
            timestamp: at,
            source_timestamp: Some(reading.completed_at),
            fresh: Some(false),
            boot_id: Some(boot_id),
            fan,
            field: FanReadbackField::Enable,
            value: None,
            endpoint_identity: fallback_identity(expected, fan),
            outcome: ObservationOutcome::Unreadable,
            phase: None,
        },
    }
}

/// A fault of a particular boot.
pub open spec fn boot_fault(
    at: EvidenceTimestamp,
    boot_id: Seq<char>,
    code: Seq<char>,
    detail: Seq<char>,
) -> FaultModel {
    FaultModel { timestamp: at, boot_id: Some(boot_id), code, detail }
}

/// The fault that a reading leaves, where it does.
pub open spec fn reading_fault(
    reading: FanReading,
    fan: EvidenceFan,
    not_before: EvidenceTimestamp,
    boot_id: Seq<char>,
    allow_clock_reset: bool,
) -> Option<FaultModel> {
    let at = reading_at(reading, not_before, allow_clock_reset);
    match reading.result {
        Ok(_) => if reading_is_valid(reading, not_before) {
            None
        } else {
            Some(
                boot_fault(
                    at,
                    boot_id,
                    "firmware-auto-observation-invalid"@,
                    fan_text(
                        fan,
                    ) + " Firmware Auto readback has invalid time or endpoint identity"@,
                ),
            )
        },
        Err(error) => Some(
            boot_fault(
                at,
                boot_id,
                "firmware-auto-observation-failed"@,
                "cannot read "@ + fan_text(fan) + " Firmware Auto state: "@ + error@,
            ),
        ),
    }
}

/// Records a fault of a particular boot.
pub(crate) fn push_boot_fault(
    faults: &mut Vec<FaultEvidence>,
    at: EvidenceTimestamp,
    boot_id: &str,
    code: &str,
    detail: &str,
)
    ensures
        fault_list(final(faults)@) == fault_list(old(faults)@).push(
            boot_fault(at, boot_id@, code@, detail@),
        ),
        final(faults)@.len() == old(faults)@.len() + 1,
{
    faults.push(
        FaultEvidence {
            timestamp: at,
            boot_id: Some(boot_id.to_owned()),
            code: code.to_owned(),
            detail: detail.to_owned(),
        },
    );
    proof {
        assert(fault_list(faults@) =~= fault_list(old(faults)@).push(
            boot_fault(at, boot_id@, code@, detail@),
        ));
    }
}

fn unresolved_auto_target(fan: EvidenceFan) -> (name: &'static str)
    ensures
        name@ == unresolved_target(fan),
{
    match fan {
        EvidenceFan::Cpu => "cpu-enable-target-unresolved",
        EvidenceFan::Gpu => "gpu-enable-target-unresolved",
    }
}

/// One fan's side of a confirmation.
#[derive(Debug)]
pub struct FanConfirmation {
    pub completed_at: EvidenceTimestamp,
    pub valid: bool,
    pub readback: FanReadbackEvidence,
}

fn is_auto(readback: Option<u32>) -> (yes: bool)
    ensures
        yes == (readback == Some(2u32)),
{
    match readback {
        Some(value) => value == 2,
        None => false,
    }
}

/// Judges the reading of one fan.
pub fn confirm_one_fan(
    reading: &FanReading,
    fan: EvidenceFan,
    earliest: EvidenceTimestamp,
    expected: Option<&str>,
    boot_id: &str,
    allow_clock_reset: bool,
    faults: &mut Vec<FaultEvidence>,
) -> (confirmation: FanConfirmation)
    ensures
        confirmation.completed_at == reading_at(*reading, earliest, allow_clock_reset),
        confirmation.valid == reading_is_valid(*reading, earliest),
        confirmation.readback@ == reading_readback(
            *reading,
            fan,
            earliest,
            match expected {
                Some(identity) => Some(identity@),
                None => None,
            },
            boot_id@,
            allow_clock_reset,
        ),
        fault_list(final(faults)@) == match reading_fault(
            *reading,
            fan,
            earliest,
            boot_id@,
            allow_clock_reset,
        ) {
            Some(fault) => fault_list(old(faults)@).push(fault),
            None => fault_list(old(faults)@),
        },
{
    let fallback = match expected {
        Some(identity) => identity.to_owned(),
        None => unresolved_auto_target(fan).to_owned(),
    };
    match &reading.result {
        Ok(observation) => {
            let timely = observation.fresh && not_before(
                reading.requested_at,
                observation.observed_at,
            ) && not_before(observation.observed_at, reading.completed_at) && not_before(
                earliest,
                observation.observed_at,
            );
            let named = identity_has_nonblank_character(observation.endpoint_identity.as_str());
            let at = if allow_clock_reset {
                observation.observed_at
            } else {
                strictly_after_timestamp(observation.observed_at, earliest)
            };
            let valid = timely && named;
            if !valid {
                push_boot_fault(
                    faults,
                    at,
                    boot_id,
                    "firmware-auto-observation-invalid",
                    join(
                        fan_name(fan),
                        " Firmware Auto readback has invalid time or endpoint identity",
                    ).as_str(),
                );
            }
            FanConfirmation {
                completed_at: at,
                valid,
                readback: FanReadbackEvidence {
                    timestamp: at,
                    source_timestamp: Some(observation.observed_at),
                    fresh: Some(observation.fresh),
                    boot_id: Some(boot_id.to_owned()),
                    fan,
                    field: FanReadbackField::Enable,
                    value: if named {
                        observation.enable_readback
                    } else {
                        None
                    },
                    endpoint_identity: if named {
                        observation.endpoint_identity.clone()
                    } else {
                        fallback
                    },
                    outcome: if valid && is_auto(observation.enable_readback) {
                        ObservationOutcome::Confirmed
                    } else if named && observation.enable_readback.is_some() {
                        ObservationOutcome::Unexpected
                    } else {
                        ObservationOutcome::Unreadable
                    },
                    phase: None,
                },
            }
        },
        Err(error) => {
            let at = if allow_clock_reset {
                reading.completed_at
            } else {
                strictly_after_timestamp(reading.completed_at, earliest)
            };
            let mut detail = join3("cannot read ", fan_name(fan), " Firmware Auto state: ");
            detail.append(error.as_str());
            push_boot_fault(
                faults,
                at,
                boot_id,
                "firmware-auto-observation-failed",
                detail.as_str(),
            );
            FanConfirmation {
                completed_at: at,
                valid: false,
                readback: FanReadbackEvidence {
                    timestamp: at,
                    source_timestamp: Some(reading.completed_at),
                    fresh: Some(false),
                    boot_id: Some(boot_id.to_owned()),
                    fan,
                    field: FanReadbackField::Enable,
                    value: None,
                    endpoint_identity: fallback,
                    outcome: ObservationOutcome::Unreadable,
                    phase: None,
                },
            }
        },
    }
}

/// The moment before which the GPU fan's reading does not count.
pub open spec fn gpu_not_before(context: GateContext, cpu: FanReading) -> EvidenceTimestamp {
    let cpu_at = reading_at(cpu, context.not_before, context.allow_clock_reset);
    if context.allow_clock_reset {
        cpu_at
    } else {
        later_of(context.not_before, cpu_at)
    }
}

/// The observations of both fans, where there are two.
pub open spec fn gate_pair(cpu: FanReading, gpu: FanReading) -> Option<LiveLifecycleFanAutoPair> {
    match (cpu.result, gpu.result) {
        (Ok(cpu), Ok(gpu)) => Some(LiveLifecycleFanAutoPair { cpu, gpu }),
        _ => None,
    }
}

/// The moment at which a confirmation ended.
pub open spec fn gate_at(context: GateContext, cpu: FanReading, gpu: FanReading) -> EvidenceTimestamp {
    later_of(
        reading_at(cpu, context.not_before, context.allow_clock_reset),
        reading_at(gpu, gpu_not_before(context, cpu), context.allow_clock_reset),
    )
}

/// Why a pair of readings does not confirm both fans in Firmware Auto.
pub open spec fn gate_failure(context: GateContext, cpu: FanReading, gpu: FanReading) -> Option<
    Seq<char>,
> {
    if !(reading_is_valid(cpu, context.not_before) && reading_is_valid(
        gpu,
        gpu_not_before(context, cpu),
    ) && cpu.result->Ok_0.enable_readback == Some(2u32) && gpu.result->Ok_0.enable_readback == Some(
        2u32,
    )) {
        Some("both CPU and GPU enable readbacks must independently equal Firmware Auto (2)"@)
    } else {
        let found = (cpu.result->Ok_0.endpoint_identity@, gpu.result->Ok_0.endpoint_identity@);
        if !distinct_identities(found) {
            Some("Firmware Auto readbacks require two distinct endpoint identities"@)
        } else if expected_of(context.expected_identities) matches Some(expected) && found
            != expected {
            Some("Firmware Auto endpoint identity changed between lifecycle cases"@)
        } else {
            None
        }
    }
}

/// A readback that no longer counts as a confirmation.
pub open spec fn doubted(readback: ReadbackModel) -> ReadbackModel {
    if readback.outcome == ObservationOutcome::Confirmed {
        ReadbackModel { outcome: ObservationOutcome::Unexpected, ..readback }
    } else {
        readback
    }
}

/// The readbacks that a confirmation leaves.
pub open spec fn gate_readbacks(context: GateContext, cpu: FanReading, gpu: FanReading) -> Seq<
    ReadbackModel,
> {
    let expected = expected_of(context.expected_identities);
    let first = reading_readback(
        cpu,
        EvidenceFan::Cpu,
        context.not_before,
        match expected {
            Some(ids) => Some(ids.0),
            None => None,
        },
        context.boot_id@,
        context.allow_clock_reset,
    );
    let second = reading_readback(
        gpu,
        EvidenceFan::Gpu,
        gpu_not_before(context, cpu),
        match expected {
            Some(ids) => Some(ids.1),
            None => None,
        },
        context.boot_id@,
        context.allow_clock_reset,
    );
    if gate_failure(context, cpu, gpu) is Some {
        seq![doubted(first), doubted(second)]
    } else {
        seq![first, second]
    }
}

/// A list of faults with one more where there is one.
pub open spec fn with_optional_fault(faults: Seq<FaultModel>, fault: Option<FaultModel>) -> Seq<
    FaultModel,
> {
    match fault {
        Some(fault) => faults.push(fault),
        None => faults,
    }
}

/// A list of faults after a confirmation.
pub open spec fn gate_faults(
    faults: Seq<FaultModel>,
    context: GateContext,
    cpu: FanReading,
    gpu: FanReading,
) -> Seq<FaultModel> {
    let first = with_optional_fault(
        faults,
        reading_fault(
            cpu,
            EvidenceFan::Cpu,
            context.not_before,
            context.boot_id@,
            context.allow_clock_reset,
        ),
    );
    let second = with_optional_fault(
        first,
        reading_fault(
            gpu,
            EvidenceFan::Gpu,
            gpu_not_before(context, cpu),
            context.boot_id@,
            context.allow_clock_reset,
        ),
    );
    match gate_failure(context, cpu, gpu) {
        Some(detail) => second.push(
            boot_fault(
                gate_at(context, cpu, gpu),
                context.boot_id@,
                "firmware-auto-unconfirmed"@,
                detail,
            ),
        ),
        None => second,
    }
}

/// The outcome of a confirmation.
#[derive(Debug)]
pub struct AutoGate {
    pub completed_at: EvidenceTimestamp,
    pub auto_pair: Option<LiveLifecycleFanAutoPair>,
    pub confirmed: bool,
}

/// Whether a confirmation came out of two readings.
pub open spec fn gate_is(gate: AutoGate, context: GateContext, cpu: FanReading, gpu: FanReading) -> bool {
    &&& gate.completed_at == gate_at(context, cpu, gpu)
    &&& gate.auto_pair == gate_pair(cpu, gpu)
    &&& gate.confirmed == (gate_failure(context, cpu, gpu) is None)
}

fn doubt(readback: &mut FanReadbackEvidence)
    ensures
        final(readback)@ == doubted(old(readback)@),
{
    if readback.outcome == ObservationOutcome::Confirmed {
        readback.outcome = ObservationOutcome::Unexpected;
    }
}

/// Judges the readings of both fans.
pub fn judge_gate(
    context: &GateContext,
    cpu: FanReading,
    gpu: FanReading,
    readbacks: &mut Vec<FanReadbackEvidence>,
    faults: &mut Vec<FaultEvidence>,
) -> (gate: AutoGate)
    ensures
        gate_is(gate, *context, cpu, gpu),
        readback_list(final(readbacks)@) == readback_list(old(readbacks)@) + gate_readbacks(
            *context,
            cpu,
            gpu,
        ),
        fault_list(final(faults)@) == gate_faults(fault_list(old(faults)@), *context, cpu, gpu),
        gate_failure(*context, cpu, gpu) is Some ==> final(faults)@.len() > 0,
{
    let (expected_cpu, expected_gpu) = match &context.expected_identities {
        Some(pair) => (Some(pair.0.as_str()), Some(pair.1.as_str())),
        None => (None, None),
    };
    let mut cpu_side = confirm_one_fan(
        &cpu,
        EvidenceFan::Cpu,
        context.not_before,
        expected_cpu,
        context.boot_id.as_str(),
        context.allow_clock_reset,
        faults,
    );
    let earliest = if context.allow_clock_reset {
        cpu_side.completed_at
    } else {
        later_timestamp(context.not_before, cpu_side.completed_at)
    };
    let mut gpu_side = confirm_one_fan(
        &gpu,
        EvidenceFan::Gpu,
        earliest,
        expected_gpu,
        context.boot_id.as_str(),
        context.allow_clock_reset,
        faults,
    );
    let completed_at = later_timestamp(cpu_side.completed_at, gpu_side.completed_at);
    let detail: Option<&'static str> = match (&cpu.result, &gpu.result) {
        (Ok(cpu_seen), Ok(gpu_seen)) => if !(cpu_side.valid && gpu_side.valid && is_auto(
            cpu_seen.enable_readback,
        ) && is_auto(gpu_seen.enable_readback)) {
            Some("both CPU and GPU enable readbacks must independently equal Firmware Auto (2)")
        } else if !identities_are_distinct(
            cpu_seen.endpoint_identity.as_str(),
            gpu_seen.endpoint_identity.as_str(),
        ) {
            Some("Firmware Auto readbacks require two distinct endpoint identities")
        } else {
            match &context.expected_identities {
                Some(pair) => if same_text(cpu_seen.endpoint_identity.as_str(), pair.0.as_str())
                    && same_text(gpu_seen.endpoint_identity.as_str(), pair.1.as_str()) {
                    None
                } else {
                    Some("Firmware Auto endpoint identity changed between lifecycle cases")
                },
                None => None,
            }
        },
        _ => Some("both CPU and GPU enable readbacks must independently equal Firmware Auto (2)"),
    };
    let confirmed = detail.is_none();
    match detail {
        Some(detail) => {
            doubt(&mut cpu_side.readback);
            doubt(&mut gpu_side.readback);
            push_boot_fault(
                faults,
                completed_at,
                context.boot_id.as_str(),
                "firmware-auto-unconfirmed",
                detail,
            );
        },
        None => {},
    }
    readbacks.push(cpu_side.readback);
    readbacks.push(gpu_side.readback);
    proof {
        assert(readback_list(readbacks@) =~= readback_list(old(readbacks)@) + gate_readbacks(
            *context,
            cpu,
            gpu,
        ));
    }
    let auto_pair = match (cpu.result, gpu.result) {
        (Ok(cpu), Ok(gpu)) => Some(LiveLifecycleFanAutoPair { cpu, gpu }),
        _ => None,
    };
    AutoGate { completed_at, auto_pair, confirmed }
}

/// The identities of both endpoints, where both were read.
pub open spec fn gate_identities(gate: AutoGate) -> Option<FanIdentities> {
    match gate.auto_pair {
        Some(pair) => Some(pair_identities(pair)),
        None => None,
    }
}

/// Finds [`gate_identities`].
pub(crate) fn identities_of_gate(gate: &AutoGate) -> (found: Option<(String, String)>)
    ensures
        expected_of(found) == gate_identities(*gate),
{
    match &gate.auto_pair {
        Some(pair) => Some(
            (pair.cpu.endpoint_identity.clone(), pair.gpu.endpoint_identity.clone()),
        ),
        None => None,
    }
}

/// A confirmation leaves no fault of its own, and confirms both readbacks, exactly where it
/// succeeds.
pub proof fn confirmed_gate_reads_back_auto(
    faults: Seq<FaultModel>,
    context: GateContext,
    cpu: FanReading,
    gpu: FanReading,
)
    ensures
        gate_failure(context, cpu, gpu) is None <==> gate_faults(faults, context, cpu, gpu)
            == faults,
        gate_failure(context, cpu, gpu) is None ==> {
            let readbacks = gate_readbacks(context, cpu, gpu);
            &&& readbacks[0].outcome == ObservationOutcome::Confirmed
            &&& readbacks[1].outcome == ObservationOutcome::Confirmed
            &&& readbacks[0].value == Some(2u32)
            &&& readbacks[1].value == Some(2u32)
        },
        gate_failure(context, cpu, gpu) is Some ==> {
            let readbacks = gate_readbacks(context, cpu, gpu);
            &&& readbacks[0].outcome != ObservationOutcome::Confirmed
            &&& readbacks[1].outcome != ObservationOutcome::Confirmed
        },
{
    let after = gate_faults(faults, context, cpu, gpu);
    if gate_failure(context, cpu, gpu) is Some {
        assert(after.len() > faults.len());
    }
}

} // verus!
