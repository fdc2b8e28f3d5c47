//! When a CPU temperature is believed, told by the files that were read.

use vstd::prelude::*;
use vstd::string::*;
use crate::acer_hwmon::FoundDevice;
use crate::coretemp::{
    alarms_came, channel_came, discovery_came, flag_came, hottest_came, input_came, label_reading,
    maximum_came, number_came, reading_defect, readings_came, sample_came, sysfs_number,
    with_reading, CoretempErrorModel, CoretempModel, LabelReading,
};
use crate::machine::{Calls, MachineCall};
use crate::platform::{contents_came, PlatformError};
use crate::text::{begins_with, unsigned_number};

verus! {

broadcast use vstd::string::group_string_axioms;

/// A temperature is accepted exactly where its maximum is a whole number of degrees from 70 to 125,
/// and it is itself a whole number of degrees from freezing to that maximum. It is the maximum that is
/// at fault exactly where the maximum is not such a number.
pub proof fn readings_are_accepted_up_to_their_maximum(input: i64, tjmax: i64)
    ensures
        reading_defect(input, tjmax) is None <==> {
            &&& 70_000 <= tjmax <= 125_000
            &&& tjmax % 1_000 == 0
            &&& 0 <= input <= tjmax
            &&& input % 1_000 == 0
        },
        reading_defect(input, tjmax) matches Some((at_maximum, _)) ==> (at_maximum <==> !(70_000
            <= tjmax <= 125_000 && tjmax % 1_000 == 0)),
{
}

/// Where one reading is accepted under a maximum, so is every cooler whole degree, and every greater
/// accepted maximum accepts it too.
pub proof fn cooler_readings_are_accepted(input: i64, tjmax: i64, cooler: i64, greater: i64)
    requires
        reading_defect(input, tjmax) is None,
        0 <= cooler <= input,
        cooler % 1_000 == 0,
        tjmax <= greater <= 125_000,
        greater % 1_000 == 0,
    ensures
        reading_defect(cooler, greater) is None,
        reading_defect(tjmax, tjmax) is None,
{
}

/// A numeric file holds decimal digits and one newline after them; it tells the number that the
/// digits spell, where that fits 63 bits.
pub proof fn numeric_files_tell_their_number(payload: Seq<char>)
    ensures
        sysfs_number(payload) matches Ok(value) ==> {
            &&& payload.len() >= 2
            &&& payload.last() == '\n'
            &&& forall|i: int| 0 <= i < payload.len() - 1 ==> '0' <= #[trigger] payload[i] <= '9'
            &&& unsigned_number(payload.drop_last(), i64::MAX as nat) == Some(value as nat)
            &&& 0 <= value
        },
        payload.len() >= 2 && payload.last() == '\n' && payload[0] != '+' && unsigned_number(
            payload.drop_last(),
            i64::MAX as nat,
        ) is Some ==> sysfs_number(payload) is Ok,
{
    let number = payload.drop_last();
    if sysfs_number(payload) is Ok {
        assert forall|i: int| 0 <= i < payload.len() - 1 implies '0' <= #[trigger] payload[i]
            <= '9' by {
            assert(number[i] == payload[i]);
        }
        assert(number[0] == payload[0]);
    }
    if payload.len() >= 2 {
        assert(number[0] == payload[0]);
    }
}

/// Whether a read of an alarm file shows no alarm: the file is absent, or holds a zero.
pub open spec fn shows_no_alarm(call: MachineCall) -> bool {
    call matches MachineCall::ReadBound { answer, .. } && match answer {
        Ok(payload) => payload@ == seq!['0', '\n'],
        Err(error) => error.kind is NotFound,
    }
}

/// The number that a read of a numeric file shows.
pub open spec fn shown_number(call: MachineCall) -> Option<int> {
    match call {
        MachineCall::ReadBound { answer: Ok(payload), .. } => match sysfs_number(payload@) {
            Ok(value) => Some(value),
            Err(_) => None,
        },
        _ => None,
    }
}

proof fn lemma_flag(
    before: Calls,
    after: Calls,
    device: FoundDevice,
    index: Seq<char>,
    suffix: Seq<char>,
    description: Seq<char>,
    error: Option<CoretempErrorModel>,
)
    requires
        flag_came(before, after, device, index, suffix, description, error),
    ensures
        after.len() == before.len() + 1,
        after.drop_last() == before,
        after.last() matches MachineCall::ReadBound { root, identity, child, .. } && root
            == device.0 && identity == device.1 && child == "temp"@ + index + "_"@ + suffix,
        error is None <==> shows_no_alarm(after.last()),
{
    reveal_strlit("0\n");
    reveal_strlit("1\n");
    assert("0\n"@ =~= seq!['0', '\n']);
    let contents = choose|contents: Result<String, PlatformError>|
        #[trigger] contents_came(
            before,
            after,
            device.0,
            device.1,
            crate::coretemp::channel_file(index, suffix),
            contents,
        ) && error == crate::coretemp::flag_error(
            contents,
            crate::platform::child_path(
                device.0,
                crate::coretemp::channel_file(index, suffix),
            ),
            description,
        );
    assert(after.drop_last() =~= before);
}

proof fn lemma_number(
    before: Calls,
    after: Calls,
    device: FoundDevice,
    child: Seq<char>,
    number: Result<i64, CoretempErrorModel>,
)
    requires
        number_came(before, after, device, child, number),
    ensures
        after.len() == before.len() + 1,
        after.drop_last() == before,
        after.last() matches MachineCall::ReadBound { root, identity, child: c, .. } && root
            == device.0 && identity == device.1 && c == child,
        match number {
            Ok(value) => shown_number(after.last()) == Some(value as int),
            Err(_) => shown_number(after.last()) is None,
        },
{
    let contents = choose|contents: Result<String, PlatformError>|
        #[trigger] contents_came(before, after, device.0, device.1, child, contents)
            && match contents {
            Err(e) => number == Err::<i64, _>(CoretempErrorModel::Platform(e)),
            Ok(payload) => match sysfs_number(payload@) {
                Ok(value) => number matches Ok(found) && found == value,
                Err(reason) => number == Err::<i64, _>(
                    CoretempErrorModel::InvalidSample {
                        path: crate::platform::child_path(device.0, child),
                        reason,
                    },
                ),
            },
        };
    assert(after.drop_last() =~= before);
}

proof fn lemma_alarms(
    before: Calls,
    after: Calls,
    device: FoundDevice,
    index: Seq<char>,
    error: Option<CoretempErrorModel>,
)
    requires
        alarms_came(before, after, device, index, error),
    ensures
        before.len() < after.len() <= before.len() + 2,
        after.take(before.len() as int) == before,
        error is None ==> after.len() == before.len() + 2 && shows_no_alarm(
            after[before.len() as int],
        ) && shows_no_alarm(after.last()),
        error is Some ==> !shows_no_alarm(after.last()) && (after.len() == before.len() + 2
            ==> shows_no_alarm(after[before.len() as int])),
        after[before.len() as int] matches MachineCall::ReadBound { root, identity, child, .. }
            && root == device.0 && identity == device.1 && child == "temp"@ + index + "_fault"@,
        after.len() == before.len() + 2 ==> (after.last() matches MachineCall::ReadBound {
            root,
            identity,
            child,
            ..
        } && root == device.0 && identity == device.1 && child == "temp"@ + index
            + "_crit_alarm"@),
{
    reveal_strlit("_");
    reveal_strlit("fault");
    reveal_strlit("_fault");
    reveal_strlit("crit_alarm");
    reveal_strlit("_crit_alarm");
    assert("temp"@ + index + "_"@ + "fault"@ =~= "temp"@ + index + "_fault"@);
    assert("temp"@ + index + "_"@ + "crit_alarm"@ =~= "temp"@ + index + "_crit_alarm"@);
    if error is Some && flag_came(before, after, device, index, "fault"@, "fault"@, error) {
        lemma_flag(before, after, device, index, "fault"@, "fault"@, error);
        assert(after.take(before.len() as int) =~= after.drop_last());
    } else {
        let between = choose|between: Calls|
            #[trigger] flag_came(before, between, device, index, "fault"@, "fault"@, None)
                && flag_came(
                between,
                after,
                device,
                index,
                "crit_alarm"@,
                "critical alarm"@,
                error,
            );
        lemma_flag(before, between, device, index, "fault"@, "fault"@, None);
        lemma_flag(
            between,
            after,
            device,
            index,
            "crit_alarm"@,
            "critical alarm"@,
            error,
        );
        assert(after.drop_last() == between);
        assert(after[before.len() as int] == between[before.len() as int]);
        assert(between[before.len() as int] == between.last());
        assert(after.take(before.len() as int) =~= before) by {
            assert forall|i: int| 0 <= i < before.len() implies after[i] == before[i] by {
                assert(between.drop_last()[i] == before[i]);
                assert(after.drop_last()[i] == between[i]);
            }
        }
    }
}

/// A channel gives a temperature exactly where six reads in a row allow it: its fault and its critical
/// alarm are clear or absent, before and after; its input tells the temperature and its maximum tells a
/// whole number of degrees from 70 to 125; and the temperature is a whole number of degrees from
/// freezing to that maximum. Otherwise the first read that does not allow it is the last one.
pub proof fn channels_are_believed_after_six_reads(
    before: Calls,
    after: Calls,
    device: FoundDevice,
    index: Seq<char>,
    outcome: Result<i64, CoretempErrorModel>,
)
    requires
        channel_came(before, after, device, index, outcome),
    ensures
        before.len() < after.len() <= before.len() + 6,
        outcome matches Ok(temperature) ==> {
            let n = before.len() as int;
            &&& after.len() == n + 6
            &&& shows_no_alarm(after[n]) && shows_no_alarm(after[n + 1])
            &&& shows_no_alarm(after[n + 4]) && shows_no_alarm(after[n + 5])
            &&& after[n + 2] matches MachineCall::ReadBound { child, .. } && child == "temp"@ + index
                + "_input"@
            &&& after[n + 3] matches MachineCall::ReadBound { child, .. } && child == "temp"@ + index
                + "_crit"@
            &&& shown_number(after[n + 2]) == Some(temperature as int)
            &&& shown_number(after[n + 3]) matches Some(tjmax) && {
                &&& 70_000 <= tjmax <= 125_000
                &&& tjmax % 1_000 == 0
                &&& 0 <= temperature <= tjmax
                &&& temperature % 1_000 == 0
            }
        },
        outcome is Err ==> {
            let k = after.len() - before.len() - 1;
            &&& (k == 0 || k == 1 || k == 4 || k == 5) ==> !shows_no_alarm(after.last())
            &&& k == 2 ==> shown_number(after.last()) is None
            &&& k == 3 ==> {
                let input = shown_number(after[after.len() - 2])->0;
                ||| shown_number(after.last()) is None
                ||| !({
                    let tjmax = shown_number(after.last())->0;
                    &&& 70_000 <= tjmax <= 125_000
                    &&& tjmax % 1_000 == 0
                    &&& 0 <= input <= tjmax
                    &&& input % 1_000 == 0
                })
            }
        },
{
    if outcome is Err && alarms_came(before, after, device, index, Some(outcome->Err_0)) {
        lemma_alarms(before, after, device, index, Some(outcome->Err_0));
    } else {
        let clear = choose|between: Calls|
            #[trigger] alarms_came(before, between, device, index, None) && input_came(
                between,
                after,
                device,
                index,
                outcome,
            );
        lemma_alarms(before, clear, device, index, None);
        let (read, input) = choose|read: Calls, input: Result<i64, CoretempErrorModel>|
            #[trigger] number_came(clear, read, device, "temp"@ + index + "_input"@, input)
                && match input {
                Err(e) => after == read && outcome == Err::<i64, _>(e),
                Ok(input) => maximum_came(read, after, device, index, input, outcome),
            };
        lemma_number(clear, read, device, "temp"@ + index + "_input"@, input);
        if input is Ok {
            let input = input->Ok_0;
            let (told, tjmax) = choose|told: Calls, tjmax: Result<i64, CoretempErrorModel>|
                #[trigger] number_came(read, told, device, "temp"@ + index + "_crit"@, tjmax)
                    && match tjmax {
                    Err(e) => after == told && outcome == Err::<i64, _>(e),
                    Ok(tjmax) => match crate::coretemp::reading_error(
                        device.0,
                        index,
                        input,
                        tjmax,
                    ) {
                        Some(e) => after == told && outcome == Err::<i64, _>(e),
                        None => match outcome {
                            Err(e) => alarms_came(told, after, device, index, Some(e)),
                            Ok(reading) => reading == input && alarms_came(
                                told,
                                after,
                                device,
                                index,
                                None,
                            ),
                        },
                    },
                };
            lemma_number(read, told, device, "temp"@ + index + "_crit"@, tjmax);
            let n = before.len() as int;
            assert(told.drop_last()[n + 2] == told[n + 2]);
            assert(read.last() == read[n + 2]);
            assert(read.drop_last()[n] == read[n] && read.drop_last()[n + 1] == read[n + 1]);
            assert(told.drop_last()[n] == told[n] && told.drop_last()[n + 1] == told[n + 1]);
            if tjmax is Ok {
                readings_are_accepted_up_to_their_maximum(input, tjmax->Ok_0);
                if reading_defect(input, tjmax->Ok_0) is None {
                    if outcome is Ok {
                        lemma_alarms(told, after, device, index, None);
                    } else {
                        lemma_alarms(told, after, device, index, Some(outcome->Err_0));
                    }
                    assert forall|i: int| 0 <= i < n + 4 implies #[trigger] after[i] == told[i] by {
                        assert(after.take(n + 4)[i] == told[i]);
                    }
                }
            }
        }
    }
}

/// The readings of a device are one temperature of each of its channels.
pub proof fn every_channel_is_read(
    before: Calls,
    after: Calls,
    model: CoretempModel,
    count: nat,
    readings: Seq<i64>,
    index: int,
)
    requires
        readings_came(before, after, model, count, Ok(readings)),
        0 <= index < count,
    ensures
        readings.len() == count,
        exists|from: Calls, to: Calls|
            #[trigger] channel_came(
                from,
                to,
                (model.root, model.backing_identity),
                model.channels[index].index,
                Ok(readings[index]),
            ),
    decreases count,
{
    let (between, earlier, outcome) = choose|
        between: Calls,
        earlier: Seq<i64>,
        outcome: Result<i64, CoretempErrorModel>,
    |
        {
            &&& readings_came(before, between, model, (count - 1) as nat, Ok(earlier))
            &&& #[trigger] channel_came(
                between,
                after,
                (model.root, model.backing_identity),
                model.channels[count - 1].index,
                outcome,
            )
            &&& Ok::<Seq<i64>, CoretempErrorModel>(readings) == #[trigger] with_reading(
                earlier,
                outcome,
            )
        };
    if count > 1 {
        if index < count - 1 {
            every_channel_is_read(before, between, model, (count - 1) as nat, earlier, index);
            assert(readings[index] == earlier[index]);
        } else {
            every_channel_is_read(before, between, model, (count - 1) as nat, earlier, 0);
        }
    }
    if index == count - 1 {
        assert(readings[index] == outcome->Ok_0);
    }
}

/// A sample is the hottest temperature of all channels of the device: one of them gave it, and none
/// gave a higher one.
pub proof fn samples_are_the_hottest_channel(
    before: Calls,
    after: Calls,
    model: CoretempModel,
    hottest: i64,
)
    requires
        sample_came(before, after, model, Ok(hottest)),
    ensures
        exists|from: Calls, to: Calls, readings: Seq<i64>|
            {
                &&& #[trigger] readings_came(from, to, model, model.channels.len(), Ok(readings))
                &&& exists|i: int| 0 <= i < readings.len() && #[trigger] readings[i] == hottest
                &&& forall|i: int| 0 <= i < readings.len() ==> #[trigger] readings[i] <= hottest
            },
{
    let (found, first) = choose|found: Calls, first: Result<CoretempModel, CoretempErrorModel>|
        #[trigger] discovery_came(before, found, model.hwmon_root, first) && match first {
            Err(e) => false,
            Ok(device) => device == model && crate::coretemp::channels_are_sampled(
                found,
                after,
                model,
                Ok(hottest),
            ),
        };
    let (read, readings) = choose|read: Calls, readings: Result<Seq<i64>, CoretempErrorModel>|
        #[trigger] readings_came(found, read, model, model.channels.len(), readings)
            && match readings {
            Err(e) => false,
            Ok(readings) => hottest_came(read, after, model, readings, Ok(hottest)),
        };
    let all = readings->Ok_0;
    assert(readings_came(found, read, model, model.channels.len(), Ok(all)));
    assert(all.contains(hottest));
}

/// A label is a package's or a core's exactly where it is one line that names it and its number.
pub proof fn labels_name_packages_and_cores(payload: Seq<char>)
    ensures
        label_reading(payload) matches LabelReading::Selected { label, is_package } ==> {
            &&& payload == label.push('\n')
            &&& !label.contains('\n')
            &&& is_package <==> begins_with(label, "Package id "@)
            &&& is_package || begins_with(label, "Core "@)
        },
{
    if label_reading(payload) is Selected {
        assert(payload =~= payload.drop_last().push('\n'));
    }
}

} // verus!
