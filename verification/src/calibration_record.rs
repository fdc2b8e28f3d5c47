//! The evidence record of one completed fan calibration.

use vstd::prelude::*;
use vstd::string::*;
use crate::calibration::{
    events, CalibrationCheckpoint, CalibrationCheckpointEvent, CalibrationReadbackSample,
    EventModel,
};
use crate::evidence::{
    EvidenceFan, EvidenceRecord, FanEndpointIdentitiesEvidence, FanReadbackEvidence,
    FanReadbackField, ObservationOutcome, RecordModel, RestorationAttemptEvidence,
    RestorationOutcome,
};
use crate::text::same_text;

verus! {

broadcast use vstd::string::group_string_axioms;

/// The other fan.
pub open spec fn other_fan(fan: EvidenceFan) -> EvidenceFan {
    match fan {
        EvidenceFan::Cpu => EvidenceFan::Gpu,
        EvidenceFan::Gpu => EvidenceFan::Cpu,
    }
}

pub(crate) fn opposite(fan: EvidenceFan) -> (other: EvidenceFan)
    ensures
        other == other_fan(fan),
{
    match fan {
        EvidenceFan::Cpu => EvidenceFan::Gpu,
        EvidenceFan::Gpu => EvidenceFan::Cpu,
    }
}

/// The identity of a fan's endpoint.
pub open spec fn identity_of(
    identities: FanEndpointIdentitiesEvidence,
    fan: EvidenceFan,
    field: FanReadbackField,
) -> String {
    match (fan, field) {
        (EvidenceFan::Cpu, FanReadbackField::Pwm) => identities.cpu_pwm,
        (EvidenceFan::Cpu, FanReadbackField::Enable) => identities.cpu_enable,
        (EvidenceFan::Cpu, FanReadbackField::Rpm) => identities.cpu_tachometer,
        (EvidenceFan::Gpu, FanReadbackField::Pwm) => identities.gpu_pwm,
        (EvidenceFan::Gpu, FanReadbackField::Enable) => identities.gpu_enable,
        (EvidenceFan::Gpu, FanReadbackField::Rpm) => identities.gpu_tachometer,
    }
}

pub(crate) fn endpoint_identity(
    identities: &FanEndpointIdentitiesEvidence,
    fan: EvidenceFan,
    field: FanReadbackField,
) -> (identity: &String)
    ensures
        *identity == identity_of(*identities, fan, field),
{
    match (fan, field) {
        (EvidenceFan::Cpu, FanReadbackField::Pwm) => &identities.cpu_pwm,
        (EvidenceFan::Cpu, FanReadbackField::Enable) => &identities.cpu_enable,
        (EvidenceFan::Cpu, FanReadbackField::Rpm) => &identities.cpu_tachometer,
        (EvidenceFan::Gpu, FanReadbackField::Pwm) => &identities.gpu_pwm,
        (EvidenceFan::Gpu, FanReadbackField::Enable) => &identities.gpu_enable,
        (EvidenceFan::Gpu, FanReadbackField::Rpm) => &identities.gpu_tachometer,
    }
}

/// The samples of an event.
pub open spec fn event_samples(event: EventModel) -> Seq<CalibrationReadbackSample> {
    match event {
        EventModel::Level { step, observation } => observation.samples,
        EventModel::Hold { step, hold } => hold.samples,
    }
}

/// The samples of a list of events, in order.
pub open spec fn all_samples(events: Seq<EventModel>) -> Seq<CalibrationReadbackSample>
    decreases events.len(),
{
    if events.len() == 0 {
        Seq::empty()
    } else {
        all_samples(events.drop_last()) + event_samples(events.last())
    }
}

/// The samples of a checkpoint, in order.
pub(crate) fn collect_samples(checkpoint: &CalibrationCheckpoint) -> (samples: Vec<
    CalibrationReadbackSample,
>)
    ensures
        samples@ == all_samples(checkpoint@.events),
{
    let ghost models = checkpoint@.events;
    let mut samples: Vec<CalibrationReadbackSample> = Vec::new();
    let mut i: usize = 0;
    assert(models.take(0) =~= Seq::<EventModel>::empty());
    while i < checkpoint.events.len()
        invariant
            i <= checkpoint.events.len(),
            models == checkpoint@.events,
            models.len() == checkpoint.events@.len(),
            samples@ == all_samples(models.take(i as int)),
        decreases checkpoint.events.len() - i,
    {
        let own = match &checkpoint.events[i] {
            CalibrationCheckpointEvent::Level { step: _, observation } => &observation.samples,
            CalibrationCheckpointEvent::Hold { step: _, hold } => &hold.samples,
        };
        proof {
            let longer = models.take(i + 1);
            assert(longer.drop_last() =~= models.take(i as int));
            assert(longer.last() == checkpoint.events@[i as int]@);
            assert(own@ == event_samples(models[i as int]));
        }
        let ghost before = samples@;
        let mut k: usize = 0;
        while k < own.len()
            invariant
                k <= own.len(),
                samples@ == before + own@.take(k as int),
            decreases own.len() - k,
        {
            samples.push(own[k]);
            k = k + 1;
            assert(own@.take(k as int) =~= own@.take(k - 1).push(own@[k - 1]));
            assert(samples@ =~= before + own@.take(k as int));
        }
        assert(own@.take(own.len() as int) =~= own@);
        i = i + 1;
    }
    assert(models.take(models.len() as int) =~= models);
    samples
}

/// Whether a readback is a plain sample of an endpoint at a time.
pub open spec fn is_plain_readback(
    readback: FanReadbackEvidence,
    monotonic_millis: u64,
    fan: EvidenceFan,
    field: FanReadbackField,
    value: Option<u32>,
    identities: FanEndpointIdentitiesEvidence,
) -> bool {
    &&& readback.timestamp.monotonic_millis == monotonic_millis
    &&& is_endpoint_value(readback, fan, field, value, identities)
}

/// Whether a readback shows a value of an endpoint, confirmed where there is one.
pub open spec fn is_endpoint_value(
    readback: FanReadbackEvidence,
    fan: EvidenceFan,
    field: FanReadbackField,
    value: Option<u32>,
    identities: FanEndpointIdentitiesEvidence,
) -> bool {
    &&& readback.fan == fan
    &&& readback.field == field
    &&& readback.value == value
    &&& readback.endpoint_identity@ == identity_of(identities, fan, field)@
    &&& readback.outcome == if value is Some {
        ObservationOutcome::Confirmed
    } else {
        ObservationOutcome::Unreadable
    }
    &&& readback.source_timestamp is None
    &&& readback.fresh is None
    &&& readback.boot_id is None
    &&& readback.phase is None
}

/// Whether five readbacks from an index on record one calibration sample.
pub open spec fn sample_is_recorded(
    readbacks: Seq<FanReadbackEvidence>,
    index: int,
    sample: CalibrationReadbackSample,
    fan: EvidenceFan,
    identities: FanEndpointIdentitiesEvidence,
) -> bool {
    let at = sample.monotonic_millis;
    let other = other_fan(fan);
    &&& is_plain_readback(
        readbacks[index],
        at,
        fan,
        FanReadbackField::Enable,
        Some(sample.selected_enable_readback as u32),
        identities,
    )
    &&& is_plain_readback(
        readbacks[index + 1],
        at,
        fan,
        FanReadbackField::Pwm,
        Some(sample.selected_pwm_readback as u32),
        identities,
    )
    &&& is_plain_readback(
        readbacks[index + 2],
        at,
        fan,
        FanReadbackField::Rpm,
        sample.selected_rpm,
        identities,
    )
    &&& is_plain_readback(
        readbacks[index + 3],
        at,
        other,
        FanReadbackField::Enable,
        Some(sample.other_enable_readback as u32),
        identities,
    )
    &&& is_plain_readback(
        readbacks[index + 4],
        at,
        other,
        FanReadbackField::Pwm,
        Some(sample.other_pwm_readback as u32),
        identities,
    )
}

/// Whether a readback finally confirms a fan in Firmware Auto.
pub open spec fn ends_in_auto(
    readback: FanReadbackEvidence,
    fan: EvidenceFan,
    identities: FanEndpointIdentitiesEvidence,
) -> bool {
    is_endpoint_value(readback, fan, FanReadbackField::Enable, Some(2u32), identities)
}

/// Whether an attempt restored a fan to Firmware Auto.
pub open spec fn restores_auto(attempt: RestorationAttemptEvidence, fan: EvidenceFan) -> bool {
    &&& attempt.fan == fan
    &&& attempt.auto_write_succeeded
    &&& attempt.enable_readback == Some(2u32)
    &&& attempt.outcome == RestorationOutcome::FirmwareAutoConfirmed
}

/// Whether the two transitions of a calibration lead into Custom control and back.
pub open spec fn calibration_transitions_match(record: RecordModel) -> bool {
    let transitions = record.state_transitions;
    &&& transitions.len() == 2
    &&& transitions[0].timestamp == record.started_at
    &&& transitions[0].boot_id is None
    &&& transitions[0].from@ == "firmware-auto"@
    &&& transitions[0].to@ == "custom-control"@
    &&& transitions[1].boot_id is None
    &&& transitions[1].from@ == "custom-control"@
    &&& transitions[1].to@ == "firmware-auto"@
}

/// Whether a record proves one fan's complete calibration and nothing else.
pub open spec fn calibration_is_complete(record: RecordModel) -> bool {
    &&& record.workload is None
    &&& record.samples.len() == 0
    &&& record.thermal_summary is None
    &&& record.faults.len() == 0
    &&& record.process_stops.len() == 0
    &&& record.calibration.len() == 1
    &&& record.commands.len() > 0
    &&& record.fan_endpoint_identities matches Some(identities)
        && record.calibration[0].protocol_checkpoint matches Some(checkpoint) && {
        let fan = record.calibration[0].fan;
        let samples = all_samples(checkpoint.events);
        let count = record.readbacks.len() as int;
        &&& count == samples.len() * 5 + 2
        &&& forall|k: int|
            0 <= k < samples.len() ==> sample_is_recorded(
                record.readbacks,
                k * 5,
                #[trigger] samples[k],
                fan,
                identities,
            )
        &&& ends_in_auto(record.readbacks[count - 1], EvidenceFan::Cpu, identities)
            || ends_in_auto(record.readbacks[count - 2], EvidenceFan::Cpu, identities)
        &&& ends_in_auto(record.readbacks[count - 1], EvidenceFan::Gpu, identities)
            || ends_in_auto(record.readbacks[count - 2], EvidenceFan::Gpu, identities)
    }
    &&& record.restoration_attempts.len() == 2
    &&& restores_auto(record.restoration_attempts[0], EvidenceFan::Cpu) || restores_auto(
        record.restoration_attempts[1],
        EvidenceFan::Cpu,
    )
    &&& restores_auto(record.restoration_attempts[0], EvidenceFan::Gpu) || restores_auto(
        record.restoration_attempts[1],
        EvidenceFan::Gpu,
    )
    &&& calibration_transitions_match(record)
}

fn same_value(a: Option<u32>, b: Option<u32>) -> (same: bool)
    ensures
        same == (a == b),
{
    match (a, b) {
        (Some(a), Some(b)) => a == b,
        (None, None) => true,
        _ => false,
    }
}

fn shows_endpoint_value(
    readback: &FanReadbackEvidence,
    fan: EvidenceFan,
    field: FanReadbackField,
    value: Option<u32>,
    identities: &FanEndpointIdentitiesEvidence,
) -> (yes: bool)
    ensures
        yes == is_endpoint_value(*readback, fan, field, value, *identities),
{
    let outcome = if value.is_some() {
        ObservationOutcome::Confirmed
    } else {
        ObservationOutcome::Unreadable
    };
    readback.fan == fan && readback.field == field && same_value(readback.value, value)
        && same_text(
        readback.endpoint_identity.as_str(),
        endpoint_identity(identities, fan, field).as_str(),
    ) && readback.outcome == outcome && readback.source_timestamp.is_none()
        && readback.fresh.is_none() && readback.boot_id.is_none() && readback.phase.is_none()
}

fn shows_sample_value(
    readback: &FanReadbackEvidence,
    monotonic_millis: u64,
    fan: EvidenceFan,
    field: FanReadbackField,
    value: Option<u32>,
    identities: &FanEndpointIdentitiesEvidence,
) -> (yes: bool)
    ensures
        yes == is_plain_readback(*readback, monotonic_millis, fan, field, value, *identities),
{
    readback.timestamp.monotonic_millis == monotonic_millis && shows_endpoint_value(
        readback,
        fan,
        field,
        value,
        identities,
    )
}

fn records_sample(
    readbacks: &Vec<FanReadbackEvidence>,
    index: usize,
    sample: CalibrationReadbackSample,
    fan: EvidenceFan,
    identities: &FanEndpointIdentitiesEvidence,
) -> (yes: bool)
    requires
        index + 4 < readbacks@.len(),
    ensures
        yes == sample_is_recorded(readbacks@, index as int, sample, fan, *identities),
{
    let at: u64 = sample.monotonic_millis;
    let other = opposite(fan);
    let count = readbacks.len();
    assert(index + 4 < count);
    shows_sample_value(
        &readbacks[index],
        at,
        fan,
        FanReadbackField::Enable,
        Some(sample.selected_enable_readback as u32),
        identities,
    ) && shows_sample_value(
        &readbacks[index + 1],
        at,
        fan,
        FanReadbackField::Pwm,
        Some(sample.selected_pwm_readback as u32),
        identities,
    ) && shows_sample_value(
        &readbacks[index + 2],
        at,
        fan,
        FanReadbackField::Rpm,
        sample.selected_rpm,
        identities,
    ) && shows_sample_value(
        &readbacks[index + 3],
        at,
        other,
        FanReadbackField::Enable,
        Some(sample.other_enable_readback as u32),
        identities,
    ) && shows_sample_value(
        &readbacks[index + 4],
        at,
        other,
        FanReadbackField::Pwm,
        Some(sample.other_pwm_readback as u32),
        identities,
    )
}

fn samples_are_recorded(
    readbacks: &Vec<FanReadbackEvidence>,
    samples: &Vec<CalibrationReadbackSample>,
    fan: EvidenceFan,
    identities: &FanEndpointIdentitiesEvidence,
) -> (yes: bool)
    requires
        readbacks@.len() == samples@.len() * 5 + 2,
    ensures
        yes == forall|k: int|
            0 <= k < samples@.len() ==> sample_is_recorded(
                readbacks@,
                k * 5,
                #[trigger] samples@[k],
                fan,
                *identities,
            ),
{
    let count = readbacks.len();
    let mut k: usize = 0;
    while k < samples.len()
        invariant
            k <= samples.len(),
            count == readbacks@.len(),
            readbacks@.len() == samples@.len() * 5 + 2,
            forall|j: int|
                0 <= j < k ==> sample_is_recorded(
                    readbacks@,
                    j * 5,
                    #[trigger] samples@[j],
                    fan,
                    *identities,
                ),
        decreases samples.len() - k,
    {
        assert(k * 5 + 4 < count);
        if !records_sample(readbacks, k * 5, samples[k], fan, identities) {
            assert(!sample_is_recorded(
                readbacks@,
                k * 5,
                samples@[k as int],
                fan,
                *identities,
            ));
            return false;
        }
        k = k + 1;
    }
    true
}

fn restored(attempt: &RestorationAttemptEvidence, fan: EvidenceFan) -> (yes: bool)
    ensures
        yes == restores_auto(*attempt, fan),
{
    attempt.fan == fan && attempt.auto_write_succeeded && same_value(
        attempt.enable_readback,
        Some(2),
    ) && attempt.outcome == RestorationOutcome::FirmwareAutoConfirmed
}

fn transitions_match(record: &EvidenceRecord) -> (yes: bool)
    ensures
        yes == calibration_transitions_match(record@),
{
    let transitions = &record.state_transitions;
    transitions.len() == 2 && transitions[0].timestamp == record.started_at
        && transitions[0].boot_id.is_none() && same_text(
        transitions[0].from.as_str(),
        "firmware-auto",
    ) && same_text(transitions[0].to.as_str(), "custom-control") && transitions[1].boot_id.is_none()
        && same_text(transitions[1].from.as_str(), "custom-control") && same_text(
        transitions[1].to.as_str(),
        "firmware-auto",
    )
}

/// Decides [`calibration_is_complete`].
pub fn fan_calibration_is_complete(record: &EvidenceRecord) -> (yes: bool)
    ensures
        yes == calibration_is_complete(record@),
{
    if record.workload.is_some() || record.samples.len() != 0 || record.thermal_summary.is_some()
        || record.faults.len() != 0 || record.process_stops.len() != 0 || record.calibration.len()
        != 1 || record.commands.len() == 0 {
        return false;
    }
    let identities = match &record.fan_endpoint_identities {
        Some(identities) => identities,
        None => {
            return false;
        },
    };
    let calibration = &record.calibration[0];
    assert(record@.calibration[0] == calibration@);
    let checkpoint = match &calibration.protocol_checkpoint {
        Some(checkpoint) => checkpoint,
        None => {
            return false;
        },
    };
    let samples = collect_samples(checkpoint);
    let count = record.readbacks.len();
    if count as u128 != samples.len() as u128 * 5 + 2 {
        return false;
    }
    if !samples_are_recorded(&record.readbacks, &samples, calibration.fan, identities) {
        return false;
    }
    let last = &record.readbacks[count - 1];
    let previous = &record.readbacks[count - 2];
    let cpu_ends_in_auto = shows_endpoint_value(
        last,
        EvidenceFan::Cpu,
        FanReadbackField::Enable,
        Some(2),
        identities,
    ) || shows_endpoint_value(
        previous,
        EvidenceFan::Cpu,
        FanReadbackField::Enable,
        Some(2),
        identities,
    );
    let gpu_ends_in_auto = shows_endpoint_value(
        last,
        EvidenceFan::Gpu,
        FanReadbackField::Enable,
        Some(2),
        identities,
    ) || shows_endpoint_value(
        previous,
        EvidenceFan::Gpu,
        FanReadbackField::Enable,
        Some(2),
        identities,
    );
    cpu_ends_in_auto && gpu_ends_in_auto && record.restoration_attempts.len() == 2 && (restored(
        &record.restoration_attempts[0],
        EvidenceFan::Cpu,
    ) || restored(&record.restoration_attempts[1], EvidenceFan::Cpu)) && (restored(
        &record.restoration_attempts[0],
        EvidenceFan::Gpu,
    ) || restored(&record.restoration_attempts[1], EvidenceFan::Gpu)) && transitions_match(record)
}

} // verus!
