//! What a record proves about the fans at the end of its run.

use vstd::prelude::*;
use crate::evidence::{
    EvidenceFan, EvidenceRecord, FanCommandEvidence, FanReadbackEvidence, FanReadbackField,
    ObservationOutcome, RecordModel, RestorationAttemptEvidence, RestorationOutcome,
    StateTransitionEvidence,
};
use crate::select::{
    kept, latest, latest_is_largest, lemma_kept_ends, lemma_kept_step, lemma_latest_step,
};
use crate::text::same_text;

verus! {

broadcast use vstd::string::group_string_axioms;

/// Readbacks of one fan's enable endpoint.
pub open spec fn enable_readbacks_of(fan: EvidenceFan) -> spec_fn(FanReadbackEvidence) -> bool {
    |readback: FanReadbackEvidence| readback.fan == fan && readback.field
        == FanReadbackField::Enable
}

/// When a readback was stamped.
pub open spec fn readback_time() -> spec_fn(FanReadbackEvidence) -> u64 {
    |readback: FanReadbackEvidence| readback.timestamp.monotonic_millis
}

/// Commands to one fan.
pub open spec fn commands_to(fan: EvidenceFan) -> spec_fn(FanCommandEvidence) -> bool {
    |command: FanCommandEvidence| command.fan == fan
}

/// When a command was given.
pub open spec fn command_time() -> spec_fn(FanCommandEvidence) -> u64 {
    |command: FanCommandEvidence| command.timestamp.monotonic_millis
}

/// Restoration attempts on one fan.
pub open spec fn attempts_on(fan: EvidenceFan) -> spec_fn(RestorationAttemptEvidence) -> bool {
    |attempt: RestorationAttemptEvidence| attempt.fan == fan
}

/// When a restoration was attempted.
pub open spec fn attempt_time() -> spec_fn(RestorationAttemptEvidence) -> u64 {
    |attempt: RestorationAttemptEvidence| attempt.timestamp.monotonic_millis
}

/// When a state was entered.
pub open spec fn transition_time() -> spec_fn(StateTransitionEvidence) -> u64 {
    |transition: StateTransitionEvidence| transition.timestamp.monotonic_millis
}

/// The readback that tells a fan's final mode: the latest one, or across a reboot the last one
/// recorded.
pub open spec fn final_enable_readback(record: RecordModel, fan: EvidenceFan) -> Option<
    FanReadbackEvidence,
> {
    let matching = kept(record.readbacks, enable_readbacks_of(fan));
    if record.stage == "live-lifecycle"@ {
        if matching.len() == 0 {
            None
        } else {
            Some(matching.last())
        }
    } else {
        latest(matching, readback_time())
    }
}

/// Whether a fan's final mode readback confirms Firmware Auto.
pub open spec fn final_readback_is_auto(record: RecordModel, fan: EvidenceFan) -> bool {
    final_enable_readback(record, fan) matches Some(readback) && readback.value == Some(2u32)
        && readback.outcome == ObservationOutcome::Confirmed
}

/// The latest restoration attempt on a fan, where it came after every command to that fan.
pub open spec fn final_attempt(record: RecordModel, fan: EvidenceFan) -> Option<
    RestorationAttemptEvidence,
> {
    match latest(kept(record.restoration_attempts, attempts_on(fan)), attempt_time()) {
        None => None,
        Some(attempt) => match latest(kept(record.commands, commands_to(fan)), command_time()) {
            Some(command) => if attempt.timestamp.monotonic_millis
                > command.timestamp.monotonic_millis {
                Some(attempt)
            } else {
                None
            },
            None => Some(attempt),
        },
    }
}

/// Whether that attempt confirmed Firmware Auto.
pub open spec fn final_attempt_is_auto(record: RecordModel, fan: EvidenceFan) -> bool {
    final_attempt(record, fan) matches Some(attempt) && attempt.auto_write_succeeded
        && attempt.enable_readback == Some(2u32) && attempt.outcome
        == RestorationOutcome::FirmwareAutoConfirmed
}

/// Whether the last state was entered at or after the last restoration attempt.
pub open spec fn final_state_follows(record: RecordModel) -> bool {
    latest(record.state_transitions, transition_time()) matches Some(transition) && (latest(
        record.restoration_attempts,
        attempt_time(),
    ) matches Some(attempt) ==> transition.timestamp.monotonic_millis
        >= attempt.timestamp.monotonic_millis)
}

/// Whether the last state is Firmware Auto, entered at or after the last restoration attempt.
pub open spec fn final_state_is_auto(record: RecordModel) -> bool {
    latest(record.state_transitions, transition_time()) matches Some(transition)
        && transition.to@ == "firmware-auto"@ && final_state_follows(record)
}

pub(crate) fn final_enable_readback_confirms_auto(
    record: &EvidenceRecord,
    fan: EvidenceFan,
) -> (yes:
    bool)
    ensures
        yes == final_readback_is_auto(record@, fan),
{
    let by_order = same_text(record.stage.as_str(), "live-lifecycle");
    let ghost keep = enable_readbacks_of(fan);
    let ghost key = readback_time();
    let mut best: Option<usize> = None;
    let mut i: usize = 0;
    proof {
        lemma_kept_ends(record.readbacks@, keep);
    }
    while i < record.readbacks.len()
        invariant
            i <= record.readbacks.len(),
            keep == enable_readbacks_of(fan),
            key == readback_time(),
            by_order == (record@.stage == "live-lifecycle"@),
            best matches Some(b) ==> b < i,
            ({
                let matching = kept(record.readbacks@.take(i as int), keep);
                &&& by_order ==> (best is None <==> matching.len() == 0)
                &&& by_order ==> (best matches Some(b) ==> record.readbacks@[b as int]
                    == matching.last())
                &&& !by_order ==> latest(matching, key) == match best {
                    Some(b) => Some(record.readbacks@[b as int]),
                    None => None,
                }
            }),
        decreases record.readbacks.len() - i,
    {
        let readback = &record.readbacks[i];
        proof {
            lemma_kept_step(record.readbacks@, keep, i as int);
            let matching = kept(record.readbacks@.take(i as int), keep);
            let longer = matching.push(record.readbacks@[i as int]);
            assert(longer.drop_last() =~= matching);
            assert(longer.last() == record.readbacks@[i as int]);
        }
        if readback.fan == fan && readback.field == FanReadbackField::Enable {
            assert(keep(record.readbacks@[i as int]));
            best = match best {
                None => Some(i),
                Some(b) => if by_order || readback.timestamp.monotonic_millis
                    >= record.readbacks[b].timestamp.monotonic_millis {
                    Some(i)
                } else {
                    Some(b)
                },
            };
        } else {
            assert(!keep(record.readbacks@[i as int]));
        }
        i = i + 1;
    }
    proof {
        lemma_kept_ends(record.readbacks@, keep);
    }
    match best {
        None => false,
        Some(b) => {
            let value_is_auto = match record.readbacks[b].value {
                Some(value) => value == 2,
                None => false,
            };
            value_is_auto && record.readbacks[b].outcome == ObservationOutcome::Confirmed
        },
    }
}

/// The index of the latest command to a fan.
fn latest_command(commands: &Vec<FanCommandEvidence>, fan: EvidenceFan) -> (found: Option<usize>)
    ensures
        found matches Some(b) ==> b < commands@.len(),
        latest(kept(commands@, commands_to(fan)), command_time()) == match found {
            Some(b) => Some(commands@[b as int]),
            None => None,
        },
{
    let ghost keep = commands_to(fan);
    let ghost key = command_time();
    let mut best: Option<usize> = None;
    let mut i: usize = 0;
    proof {
        lemma_kept_ends(commands@, keep);
    }
    while i < commands.len()
        invariant
            i <= commands.len(),
            keep == commands_to(fan),
            key == command_time(),
            best matches Some(b) ==> b < i,
            latest(kept(commands@.take(i as int), keep), key) == match best {
                Some(b) => Some(commands@[b as int]),
                None => None,
            },
        decreases commands.len() - i,
    {
        proof {
            lemma_kept_step(commands@, keep, i as int);
            let matching = kept(commands@.take(i as int), keep);
            let longer = matching.push(commands@[i as int]);
            assert(longer.drop_last() =~= matching);
            assert(longer.last() == commands@[i as int]);
        }
        if commands[i].fan == fan {
            assert(keep(commands@[i as int]));
            best = match best {
                None => Some(i),
                Some(b) => if commands[i].timestamp.monotonic_millis
                    >= commands[b].timestamp.monotonic_millis {
                    Some(i)
                } else {
                    Some(b)
                },
            };
        } else {
            assert(!keep(commands@[i as int]));
        }
        i = i + 1;
    }
    proof {
        lemma_kept_ends(commands@, keep);
    }
    best
}

/// The index of the latest attempt on a fan.
fn latest_attempt_on(attempts: &Vec<RestorationAttemptEvidence>, fan: EvidenceFan) -> (found: Option<
    usize,
>)
    ensures
        found matches Some(b) ==> b < attempts@.len(),
        latest(kept(attempts@, attempts_on(fan)), attempt_time()) == match found {
            Some(b) => Some(attempts@[b as int]),
            None => None,
        },
{
    let ghost keep = attempts_on(fan);
    let ghost key = attempt_time();
    let mut best: Option<usize> = None;
    let mut i: usize = 0;
    proof {
        lemma_kept_ends(attempts@, keep);
    }
    while i < attempts.len()
        invariant
            i <= attempts.len(),
            keep == attempts_on(fan),
            key == attempt_time(),
            best matches Some(b) ==> b < i,
            latest(kept(attempts@.take(i as int), keep), key) == match best {
                Some(b) => Some(attempts@[b as int]),
                None => None,
            },
        decreases attempts.len() - i,
    {
        proof {
            lemma_kept_step(attempts@, keep, i as int);
            let matching = kept(attempts@.take(i as int), keep);
            let longer = matching.push(attempts@[i as int]);
            assert(longer.drop_last() =~= matching);
            assert(longer.last() == attempts@[i as int]);
        }
        if attempts[i].fan == fan {
            assert(keep(attempts@[i as int]));
            best = match best {
                None => Some(i),
                Some(b) => if attempts[i].timestamp.monotonic_millis
                    >= attempts[b].timestamp.monotonic_millis {
                    Some(i)
                } else {
                    Some(b)
                },
            };
        } else {
            assert(!keep(attempts@[i as int]));
        }
        i = i + 1;
    }
    proof {
        lemma_kept_ends(attempts@, keep);
    }
    best
}

/// The restoration attempt that [`final_attempt`] tells.
pub(crate) fn final_restoration_attempt_after_command(
    record: &EvidenceRecord,
    fan: EvidenceFan,
) -> (attempt: Option<RestorationAttemptEvidence>)
    ensures
        attempt == final_attempt(record@, fan),
{
    let attempt = match latest_attempt_on(&record.restoration_attempts, fan) {
        Some(b) => record.restoration_attempts[b],
        None => {
            return None;
        },
    };
    match latest_command(&record.commands, fan) {
        Some(c) => if attempt.timestamp.monotonic_millis
            > record.commands[c].timestamp.monotonic_millis {
            Some(attempt)
        } else {
            None
        },
        None => Some(attempt),
    }
}

pub(crate) fn final_restoration_confirms_auto(record: &EvidenceRecord, fan: EvidenceFan) -> (yes:
    bool)
    ensures
        yes == final_attempt_is_auto(record@, fan),
{
    match final_restoration_attempt_after_command(record, fan) {
        None => false,
        Some(attempt) => {
            let readback_is_auto = match attempt.enable_readback {
                Some(value) => value == 2,
                None => false,
            };
            attempt.auto_write_succeeded && readback_is_auto && attempt.outcome
                == RestorationOutcome::FirmwareAutoConfirmed
        },
    }
}

/// The time of the latest restoration attempt.
fn latest_attempt_time(attempts: &Vec<RestorationAttemptEvidence>) -> (time: Option<u64>)
    ensures
        match time {
            Some(time) => latest(attempts@, attempt_time()) matches Some(attempt)
                && attempt.timestamp.monotonic_millis == time,
            None => latest(attempts@, attempt_time()) is None,
        },
{
    let ghost key = attempt_time();
    let mut best: Option<u64> = None;
    let mut i: usize = 0;
    assert(attempts@.take(0) =~= Seq::<RestorationAttemptEvidence>::empty());
    while i < attempts.len()
        invariant
            i <= attempts.len(),
            key == attempt_time(),
            match best {
                Some(time) => latest(attempts@.take(i as int), key) matches Some(attempt)
                    && attempt.timestamp.monotonic_millis == time,
                None => latest(attempts@.take(i as int), key) is None,
            },
        decreases attempts.len() - i,
    {
        proof {
            lemma_latest_step(attempts@, key, i as int);
        }
        let time: u64 = attempts[i].timestamp.monotonic_millis;
        best = match best {
            None => Some(time),
            Some(known) => if time >= known {
                Some(time)
            } else {
                Some(known)
            },
        };
        i = i + 1;
    }
    assert(attempts@.take(attempts.len() as int) =~= attempts@);
    best
}

/// The index of the latest state transition.
fn latest_transition(transitions: &Vec<StateTransitionEvidence>) -> (found: Option<usize>)
    ensures
        found matches Some(b) ==> b < transitions@.len(),
        latest(transitions@, transition_time()) == match found {
            Some(b) => Some(transitions@[b as int]),
            None => None,
        },
{
    let ghost key = transition_time();
    let mut best: Option<usize> = None;
    let mut i: usize = 0;
    assert(transitions@.take(0) =~= Seq::<StateTransitionEvidence>::empty());
    while i < transitions.len()
        invariant
            i <= transitions.len(),
            key == transition_time(),
            best matches Some(b) ==> b < i,
            latest(transitions@.take(i as int), key) == match best {
                Some(b) => Some(transitions@[b as int]),
                None => None,
            },
        decreases transitions.len() - i,
    {
        proof {
            lemma_latest_step(transitions@, key, i as int);
        }
        best = match best {
            None => Some(i),
            Some(b) => if transitions[i].timestamp.monotonic_millis
                >= transitions[b].timestamp.monotonic_millis {
                Some(i)
            } else {
                Some(b)
            },
        };
        i = i + 1;
    }
    assert(transitions@.take(transitions.len() as int) =~= transitions@);
    best
}

pub(crate) fn final_state_follows_restoration(record: &EvidenceRecord) -> (yes: bool)
    ensures
        yes == final_state_follows(record@),
{
    match latest_transition(&record.state_transitions) {
        None => false,
        Some(b) => match latest_attempt_time(&record.restoration_attempts) {
            None => true,
            Some(time) => record.state_transitions[b].timestamp.monotonic_millis >= time,
        },
    }
}

pub(crate) fn final_state_confirms_auto(record: &EvidenceRecord) -> (yes: bool)
    ensures
        yes == final_state_is_auto(record@),
{
    match latest_transition(&record.state_transitions) {
        None => false,
        Some(b) => same_text(record.state_transitions[b].to.as_str(), "firmware-auto")
            && final_state_follows_restoration(record),
    }
}

/// Whether any command went to a fan.
pub open spec fn fan_is_commanded(commands: Seq<FanCommandEvidence>, fan: EvidenceFan) -> bool {
    exists|i: int| 0 <= i < commands.len() && (#[trigger] commands[i]).fan == fan
}

pub(crate) fn fan_has_commands(commands: &Vec<FanCommandEvidence>, fan: EvidenceFan) -> (yes: bool)
    ensures
        yes == fan_is_commanded(commands@, fan),
{
    let mut i: usize = 0;
    while i < commands.len()
        invariant
            i <= commands.len(),
            forall|k: int| 0 <= k < i ==> (#[trigger] commands@[k]).fan != fan,
        decreases commands.len() - i,
    {
        if commands[i].fan == fan {
            assert(commands@[i as int].fan == fan);
            return true;
        }
        i = i + 1;
    }
    false
}

/// Where a record's last restoration of a fan confirmed Firmware Auto, no command to that fan came
/// at or after it.
pub proof fn confirmed_restoration_is_last(record: RecordModel, fan: EvidenceFan, index: int)
    requires
        final_attempt_is_auto(record, fan),
        0 <= index < record.commands.len(),
        record.commands[index].fan == fan,
    ensures
        record.commands[index].timestamp.monotonic_millis < final_attempt(
            record,
            fan,
        )->0.timestamp.monotonic_millis,
{
    let keep = commands_to(fan);
    let matching = kept(record.commands, keep);
    crate::select::satisfying_entries_are_kept(record.commands, keep, index);
    latest_is_largest(matching, command_time());
    let j = choose|j: int| 0 <= j < matching.len() && matching[j] == record.commands[index];
    assert(command_time()(matching[j]) <= command_time()(latest(matching, command_time())->0));
}

} // verus!
