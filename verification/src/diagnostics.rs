//! Allowlisted structured runtime events for journald.
//!
//! Event payloads deliberately accept only domain enums and bounded numeric values. Raw errors,
//! configuration, evidence, paths, identifiers, and source payloads never enter the default log
//! contract.

use vstd::prelude::*;
use vstd::string::*;
use vstd::utf8::*;
use crate::diagnostic_fields::{
    belongs, field_belongs, places_are_counted, places_tell_fields_apart, FieldName, FIELD_COUNT,
};
use crate::diagnostic_ids::{
    EventKind, RestorationReadback, RuntimeEndpoint, RuntimeFault, RuntimeState, RuntimeTransition,
    DIAGNOSTIC_CONTRACT_MARKER,
};
use crate::text::{chars_of, parse_unsigned, same_text, unsigned_number};

verus! {

broadcast use vstd::string::group_string_axioms;

/// The target that events are recorded under.
pub const RUNTIME_TARGET: &'static str = "pt31553.runtime";

/// An input of the control cycle.
#[derive(Debug, Clone, Copy, PartialEq, Eq, Structural)]
pub enum RequiredInput {
    Cpu,
    Gpu,
    Power,
}

/// Why a set of samples is not complete.
#[derive(Debug, Clone, Copy, PartialEq, Eq, Structural)]
pub enum SampleSetError {
    FirmwareAutoUnconfirmed,
    Input { input: RequiredInput },
    Stale { input: RequiredInput },
    Future { input: RequiredInput },
    Late { input: RequiredInput },
    CadenceMissed,
    ClockWentBackwards,
    DeadlineOverflow,
    CaptureCycleOverflow,
}

/// The endpoint that an input is read from.
pub open spec fn endpoint_of(input: RequiredInput) -> RuntimeEndpoint {
    match input {
        RequiredInput::Cpu => RuntimeEndpoint::CpuTemperature,
        RequiredInput::Gpu => RuntimeEndpoint::GpuTemperature,
        RequiredInput::Power => RuntimeEndpoint::ExternalPower,
    }
}

fn sample_endpoint(input: RequiredInput) -> (endpoint: RuntimeEndpoint)
    ensures
        endpoint == endpoint_of(input),
{
    match input {
        RequiredInput::Cpu => RuntimeEndpoint::CpuTemperature,
        RequiredInput::Gpu => RuntimeEndpoint::GpuTemperature,
        RequiredInput::Power => RuntimeEndpoint::ExternalPower,
    }
}

/// The fault and the endpoint that an incomplete set of samples is logged as.
pub fn sample_fault(error: &SampleSetError) -> (fault: (RuntimeFault, Option<RuntimeEndpoint>))
    ensures
        fault == match *error {
            SampleSetError::FirmwareAutoUnconfirmed => (
                RuntimeFault::FirmwareAutoUnconfirmed,
                None,
            ),
            SampleSetError::Input { input } => (
                RuntimeFault::SensorUnavailable,
                Some(endpoint_of(input)),
            ),
            SampleSetError::Stale { input } => (
                RuntimeFault::SensorStale,
                Some(endpoint_of(input)),
            ),
            SampleSetError::Future { input } => (
                RuntimeFault::SensorFromFuture,
                Some(endpoint_of(input)),
            ),
            SampleSetError::Late { input } => (RuntimeFault::SensorLate, Some(endpoint_of(input))),
            SampleSetError::CadenceMissed => (RuntimeFault::CadenceMissed, None),
            SampleSetError::ClockWentBackwards => (RuntimeFault::DeadlineExceeded, None),
            SampleSetError::DeadlineOverflow => (RuntimeFault::DeadlineExceeded, None),
            SampleSetError::CaptureCycleOverflow => (RuntimeFault::DeadlineExceeded, None),
        },
{
    match error {
        SampleSetError::FirmwareAutoUnconfirmed => (RuntimeFault::FirmwareAutoUnconfirmed, None),
        SampleSetError::Input { input } => (
            RuntimeFault::SensorUnavailable,
            Some(sample_endpoint(*input)),
        ),
        SampleSetError::Stale { input } => (
            RuntimeFault::SensorStale,
            Some(sample_endpoint(*input)),
        ),
        SampleSetError::Future { input } => (
            RuntimeFault::SensorFromFuture,
            Some(sample_endpoint(*input)),
        ),
        SampleSetError::Late { input } => (RuntimeFault::SensorLate, Some(sample_endpoint(*input))),
        SampleSetError::CadenceMissed => (RuntimeFault::CadenceMissed, None),
        SampleSetError::ClockWentBackwards => (RuntimeFault::DeadlineExceeded, None),
        SampleSetError::DeadlineOverflow => (RuntimeFault::DeadlineExceeded, None),
        SampleSetError::CaptureCycleOverflow => (RuntimeFault::DeadlineExceeded, None),
    }
}

/// One recorded field.
#[derive(Debug)]
pub struct DiagnosticField {
    pub field: FieldName,
    pub value: String,
}

/// The contents of a recorded field.
pub struct FieldModel {
    pub field: FieldName,
    pub value: Seq<char>,
}

impl View for DiagnosticField {
    type V = FieldModel;

    open spec fn view(&self) -> FieldModel {
        FieldModel { field: self.field, value: self.value@ }
    }
}

/// Whether fields stand in the order of their names, each at most once.
pub open spec fn in_order(entries: Seq<FieldModel>) -> bool {
    forall|i: int, j: int|
        0 <= i < j < entries.len() ==> #[trigger] entries[i].field.place()
            < #[trigger] entries[j].field.place()
}

/// Whether a field stands at an index.
pub open spec fn stands_at(entries: Seq<FieldModel>, field: FieldName, i: int) -> bool {
    0 <= i < entries.len() && entries[i].field == field
}

/// The value of a field.
pub open spec fn value_in(entries: Seq<FieldModel>, field: FieldName) -> Option<Seq<char>> {
    if exists|i: int| stands_at(entries, field, i) {
        Some(entries[choose|i: int| stands_at(entries, field, i)].value)
    } else {
        None
    }
}

proof fn lemma_value_at(entries: Seq<FieldModel>, field: FieldName, i: int)
    requires
        in_order(entries),
        stands_at(entries, field, i),
    ensures
        value_in(entries, field) == Some(entries[i].value),
{
    let k = choose|k: int| stands_at(entries, field, k);
    if k < i {
        assert(entries[k].field.place() < entries[i].field.place());
    } else if i < k {
        assert(entries[i].field.place() < entries[k].field.place());
    }
}

pub(crate) proof fn lemma_nothing_recorded(field: FieldName)
    ensures
        value_in(Seq::empty(), field) is None,
{
}

/// The fields of an event, in the order of their names.
#[derive(Debug)]
pub struct DiagnosticFields {
    entries: Vec<DiagnosticField>,
}

spec fn models(entries: Seq<DiagnosticField>) -> Seq<FieldModel> {
    entries.map_values(|entry: DiagnosticField| entry@)
}

impl View for DiagnosticFields {
    type V = Seq<FieldModel>;

    closed spec fn view(&self) -> Seq<FieldModel> {
        models(self.entries@)
    }
}

impl DiagnosticFields {
    #[verifier::type_invariant]
    closed spec fn is_ordered(self) -> bool {
        in_order(models(self.entries@))
    }

    pub fn new() -> (fields: DiagnosticFields)
        ensures
            fields@ == Seq::<FieldModel>::empty(),
    {
        let entries: Vec<DiagnosticField> = Vec::new();
        assert(models(entries@) =~= Seq::empty());
        DiagnosticFields { entries }
    }

    pub(crate) fn len(&self) -> (count: usize)
        ensures
            count == self@.len(),
    {
        self.entries.len()
    }

    pub(crate) fn get(&self, index: usize) -> (entry: &DiagnosticField)
        requires
            index < self@.len(),
        ensures
            entry@ == self@[index as int],
    {
        &self.entries[index]
    }

    /// Where a field stands or would stand.
    fn find(&self, field: FieldName) -> (index: usize)
        ensures
            index <= self@.len(),
            forall|i: int| 0 <= i < index ==> (#[trigger] self@[i]).field.place() < field.place(),
            forall|i: int|
                index <= i < self@.len() ==> (#[trigger] self@[i]).field.place() >= field.place(),
            in_order(self@),
    {
        proof {
            use_type_invariant(self);
        }
        let mut index: usize = 0;
        while index < self.entries.len() && self.entries[index].field.position() < field.position()
            invariant
                index <= self@.len(),
                self@.len() == self.entries.len(),
                in_order(self@),
                forall|i: int|
                    0 <= i < index ==> (#[trigger] self@[i]).field.place() < field.place(),
            decreases self.entries.len() - index,
        {
            assert(self@[index as int].field == self.entries[index as int].field);
            index = index + 1;
        }
        proof {
            assert forall|i: int| index <= i < self@.len() implies (
            #[trigger] self@[i]).field.place() >= field.place() by {
                assert(self@[index as int].field == self.entries[index as int].field);
                if i > index {
                    assert(self@[index as int].field.place() < self@[i].field.place());
                }
            }
        }
        index
    }

    /// Records a field. A later value replaces an earlier one.
    pub fn record(self, field: FieldName, value: String) -> (fields: DiagnosticFields)
        ensures
            in_order(fields@),
            forall|other: FieldName|
                #[trigger] value_in(fields@, other) == if other == field {
                    Some(value@)
                } else {
                    value_in(self@, other)
                },
    {
        let index = self.find(field);
        let ghost before = self@;
        let mut entries = self.entries;
        let present = index < entries.len() && entries[index].field.position() == field.position();
        let ghost entry = FieldModel { field, value: value@ };
        if present {
            proof {
                assert(before[index as int].field == entries@[index as int].field);
                places_tell_fields_apart(entries@[index as int].field, field);
            }
            entries.set(index, DiagnosticField { field, value });
            proof {
                assert(models(entries@) =~= before.update(index as int, entry));
                lemma_replaced(before, index as int, entry);
            }
        } else {
            proof {
                assert forall|i: int| index <= i < before.len() implies (
                #[trigger] before[i]).field.place() > field.place() by {
                    assert(before[index as int].field == entries@[index as int].field);
                    if index < i {
                        assert(before[index as int].field.place() < before[i].field.place());
                    }
                }
            }
            entries.insert(index, DiagnosticField { field, value });
            proof {
                assert(models(entries@) =~= before.insert(index as int, entry));
                lemma_inserted_stays_in_order(before, index as int, entry);
                assert forall|other: FieldName|
                    #[trigger] value_in(models(entries@), other) == if other == field {
                        Some(value@)
                    } else {
                        value_in(before, other)
                    } by {
                    lemma_inserted_value(before, index as int, entry, other);
                }
            }
        }
        DiagnosticFields { entries }
    }
}

proof fn lemma_replaced(before: Seq<FieldModel>, index: int, entry: FieldModel)
    requires
        in_order(before),
        stands_at(before, entry.field, index),
    ensures
        in_order(before.update(index, entry)),
        forall|other: FieldName|
            #[trigger] value_in(before.update(index, entry), other) == if other == entry.field {
                Some(entry.value)
            } else {
                value_in(before, other)
            },
{
    let after = before.update(index, entry);
    assert(in_order(after)) by {
        assert forall|i: int, j: int| 0 <= i < j < after.len() implies #[trigger] after[
            i
        ].field.place() < #[trigger] after[j].field.place() by {
            assert(before[i].field.place() < before[j].field.place());
        }
    }
    assert forall|other: FieldName|
        #[trigger] value_in(after, other) == if other == entry.field {
            Some(entry.value)
        } else {
            value_in(before, other)
        } by {
        if other == entry.field {
            lemma_value_at(after, other, index);
        } else if exists|i: int| stands_at(before, other, i) {
            let i = choose|i: int| stands_at(before, other, i);
            assert(stands_at(after, other, i));
            lemma_value_at(after, other, i);
        } else {
            if exists|i: int| stands_at(after, other, i) {
                let i = choose|i: int| stands_at(after, other, i);
                assert(stands_at(before, other, i));
            }
        }
    }
}

proof fn lemma_inserted_stays_in_order(before: Seq<FieldModel>, index: int, entry: FieldModel)
    requires
        in_order(before),
        0 <= index <= before.len(),
        forall|i: int|
            0 <= i < index ==> (#[trigger] before[i]).field.place() < entry.field.place(),
        forall|i: int|
            index <= i < before.len() ==> (#[trigger] before[i]).field.place()
                > entry.field.place(),
    ensures
        in_order(before.insert(index, entry)),
{
    let after = before.insert(index, entry);
    assert forall|i: int, j: int| 0 <= i < j < after.len() implies #[trigger] after[
        i
    ].field.place() < #[trigger] after[j].field.place() by {
        if j < index {
            assert(after[i] == before[i] && after[j] == before[j]);
        } else if j == index {
            assert(after[i] == before[i] && after[j] == entry);
        } else if i < index {
            assert(after[i] == before[i] && after[j] == before[j - 1]);
            assert(before[i].field.place() < before[j - 1].field.place());
        } else if i == index {
            assert(after[i] == entry && after[j] == before[j - 1]);
        } else {
            assert(after[i] == before[i - 1] && after[j] == before[j - 1]);
        }
    }
}

proof fn lemma_inserted_value(
    before: Seq<FieldModel>,
    index: int,
    entry: FieldModel,
    other: FieldName,
)
    requires
        in_order(before),
        in_order(before.insert(index, entry)),
        0 <= index <= before.len(),
    ensures
        value_in(before.insert(index, entry), other) == if other == entry.field {
            Some(entry.value)
        } else {
            value_in(before, other)
        },
{
    let after = before.insert(index, entry);
    if other == entry.field {
        assert(stands_at(after, other, index));
        lemma_value_at(after, other, index);
    } else if exists|i: int| stands_at(before, other, i) {
        let i = choose|i: int| stands_at(before, other, i);
        if i < index {
            assert(after[i] == before[i]);
            lemma_value_at(after, other, i);
        } else {
            assert(after[i + 1] == before[i]);
            lemma_value_at(after, other, i + 1);
        }
    } else if exists|i: int| stands_at(after, other, i) {
        let i = choose|i: int| stands_at(after, other, i);
        if i < index {
            assert(after[i] == before[i]);
            assert(stands_at(before, other, i));
        } else {
            assert(i > index);
            assert(after[i] == before[i - 1]);
            assert(stands_at(before, other, i - 1));
        }
    }
}

/// A text without the quotation marks at its start.
pub open spec fn unquoted_start(text: Seq<char>) -> Seq<char>
    decreases text.len(),
{
    if text.len() > 0 && text[0] == '"' {
        unquoted_start(text.drop_first())
    } else {
        text
    }
}

/// A text without the quotation marks at its end.
pub open spec fn unquoted_end(text: Seq<char>) -> Seq<char>
    decreases text.len(),
{
    if text.len() > 0 && text.last() == '"' {
        unquoted_end(text.drop_last())
    } else {
        text
    }
}

/// A text without the quotation marks around it.
pub open spec fn unquoted(text: Seq<char>) -> Seq<char> {
    unquoted_end(unquoted_start(text))
}

fn unquote(text: &str) -> (bare: &str)
    ensures
        bare@ == unquoted(text@),
{
    let count = text.unicode_len();
    let mut start: usize = 0;
    proof {
        assert(text@.skip(0) =~= text@);
    }
    while start < count && text.get_char(start) == '"'
        invariant
            start <= count,
            count == text@.len(),
            unquoted_start(text@) == unquoted_start(text@.skip(start as int)),
        decreases count - start,
    {
        assert(text@.skip(start as int).drop_first() =~= text@.skip(start + 1));
        start = start + 1;
    }
    let ghost rest = text@.skip(start as int);
    let mut end: usize = count;
    proof {
        assert(text@.subrange(start as int, count as int) =~= rest);
    }
    while start < end && text.get_char((end - 1) as usize) == '"'
        invariant
            start <= end <= count,
            count == text@.len(),
            unquoted_end(rest) == unquoted_end(text@.subrange(start as int, end as int)),
        decreases end - start,
    {
        assert(text@.subrange(start as int, end as int).drop_last() =~= text@.subrange(
            start as int,
            end - 1,
        ));
        end = end - 1;
    }
    text.substring_char(start, end)
}

impl DiagnosticFields {
    /// The recorded value of a field.
    pub fn value(&self, field: FieldName) -> (value: Option<&str>)
        ensures
            match value {
                Some(text) => value_in(self@, field) == Some(text@),
                None => value_in(self@, field) is None,
            },
    {
        let index = self.find(field);
        if index < self.entries.len() && self.entries[index].field.position()
            == field.position() {
            proof {
                places_tell_fields_apart(self.entries@[index as int].field, field);
                assert(stands_at(self@, field, index as int));
                lemma_value_at(self@, field, index as int);
            }
            Some(self.entries[index].value.as_str())
        } else {
            proof {
                if exists|i: int| stands_at(self@, field, i) {
                    let i = choose|i: int| stands_at(self@, field, i);
                    assert(self@[i].field.place() == field.place());
                    assert(i >= index);
                    assert(self@[index as int].field == self.entries@[index as int].field);
                    if index < i {
                        assert(self@[index as int].field.place() < self@[i].field.place());
                    }
                }
            }
            None
        }
    }

    fn shown(&self, field: FieldName) -> (value: Option<&str>)
        ensures
            match value {
                Some(text) => shown_in(self@, field) == Some(text@),
                None => shown_in(self@, field) is None,
            },
    {
        match self.value(field) {
            Some(text) => Some(unquote(text)),
            None => None,
        }
    }

    fn shows(&self, field: FieldName, text: &str) -> (yes: bool)
        ensures
            yes == (shown_in(self@, field) == Some(text@)),
    {
        match self.shown(field) {
            Some(shown) => same_text(shown, text),
            None => false,
        }
    }

    /// The number of at most `maximum` that a field shows.
    fn number(&self, field: FieldName, maximum: u64) -> (number: Option<u64>)
        ensures
            match number {
                Some(n) => number_in(self@, field, maximum as nat) == Some(n as nat),
                None => number_in(self@, field, maximum as nat) is None,
            },
    {
        match self.shown(field) {
            Some(shown) => parse_unsigned(chars_of(shown).as_slice(), maximum),
            None => None,
        }
    }

    fn is_small(&self, field: FieldName, maximum: u64) -> (yes: bool)
        ensures
            yes == number_in(self@, field, maximum as nat) is Some,
    {
        match self.number(field, maximum) {
            Some(_) => true,
            None => false,
        }
    }

    /// Whether every value is short enough.
    fn values_are_short(&self) -> (yes: bool)
        ensures
            yes == all_short(self@),
    {
        proof {
            use_type_invariant(self);
        }
        let mut i: usize = 0;
        while i < self.entries.len()
            invariant
                i <= self.entries.len(),
                in_order(self@),
                self@ == models(self.entries@),
                forall|k: int|
                    0 <= k < i ==> encode_utf8((#[trigger] self@[k]).value).len() <= 64,
            decreases self.entries.len() - i,
        {
            let bytes = self.entries[i].value.as_str().as_bytes();
            if bytes.len() > 64 {
                proof {
                    assert(stands_at(self@, self@[i as int].field, i as int));
                    lemma_value_at(self@, self@[i as int].field, i as int);
                }
                return false;
            }
            i = i + 1;
        }
        true
    }

    /// Whether the fields are those that an event of a kind carries.
    fn has_exact_fields(&self, kind: EventKind) -> (yes: bool)
        ensures
            yes == exact_fields(self@, kind),
    {
        let mut place: u8 = 0;
        while place < FIELD_COUNT
            invariant
                place <= FIELD_COUNT,
                forall|field: FieldName| #[trigger]
                    field.place() < place ==> (value_in(self@, field) is Some <==> belongs(
                        kind,
                        field,
                    )),
            decreases FIELD_COUNT - place,
        {
            let field = FieldName::at(place);
            let present = match self.value(field) {
                Some(_) => true,
                None => false,
            };
            if present != field_belongs(kind, field) {
                return false;
            }
            proof {
                assert forall|other: FieldName| #[trigger]
                    other.place() < place + 1 implies (value_in(self@, other) is Some <==> belongs(
                    kind,
                    other,
                )) by {
                    if other.place() == place {
                        places_tell_fields_apart(other, field);
                    }
                }
            }
            place = place + 1;
        }
        proof {
            assert forall|field: FieldName|
                value_in(self@, field) is Some <==> #[trigger] belongs(kind, field) by {
                places_are_counted(field);
            }
        }
        true
    }
}

/// The value of a field without the quotation marks around it.
pub open spec fn shown_in(entries: Seq<FieldModel>, field: FieldName) -> Option<Seq<char>> {
    match value_in(entries, field) {
        Some(value) => Some(unquoted(value)),
        None => None,
    }
}

/// The number of at most `maximum` that a field shows.
pub open spec fn number_in(entries: Seq<FieldModel>, field: FieldName, maximum: nat) -> Option<
    nat,
> {
    match shown_in(entries, field) {
        Some(text) => unsigned_number(text, maximum),
        None => None,
    }
}

/// Whether no value has more than 64 bytes.
pub open spec fn all_short(entries: Seq<FieldModel>) -> bool {
    forall|field: FieldName|
        (#[trigger] value_in(entries, field)) matches Some(value) ==> encode_utf8(value).len()
            <= 64
}

/// Whether the fields are those that an event of a kind carries, no more and no fewer.
pub open spec fn exact_fields(entries: Seq<FieldModel>, kind: EventKind) -> bool {
    forall|field: FieldName|
        value_in(entries, field) is Some <==> #[trigger] belongs(kind, field)
}

/// What is known of the decimal fractions of a control cycle.
#[derive(Debug, Clone, Copy, PartialEq, Eq, Structural)]
pub struct CycleNumbers {
    pub cpu_temperature_is_finite: bool,
    pub gpu_temperature_is_finite: bool,
    pub demand_is_percentage: bool,
}

impl EventKind {
    /// The text of the message that goes with every event of the kind.
    pub open spec fn message_text(self) -> Seq<char> {
        match self {
            EventKind::StateTransition => "fan controller state transition"@,
            EventKind::RuntimeFault => "fan controller fault"@,
            EventKind::ControlCycle => "completed fan control cycle"@,
            EventKind::RestorationAttempt => "Firmware Auto restoration attempt"@,
        }
    }

    pub fn message(self) -> (message: &'static str)
        ensures
            message@ == self.message_text(),
    {
        match self {
            EventKind::StateTransition => "fan controller state transition",
            EventKind::RuntimeFault => "fan controller fault",
            EventKind::ControlCycle => "completed fan control cycle",
            EventKind::RestorationAttempt => "Firmware Auto restoration attempt",
        }
    }
}

/// Whether a field shows an id of a vocabulary.
pub open spec fn shows_state(entries: Seq<FieldModel>, field: FieldName) -> bool {
    shown_in(entries, field) matches Some(text) && RuntimeState::is_id(text)
}

/// Whether both fans' fields of a control cycle name their endpoints and hold small numbers.
pub open spec fn cycle_fans_are_valid(entries: Seq<FieldModel>) -> bool {
    &&& shown_in(entries, FieldName::CpuPwmEndpoint) == Some(RuntimeEndpoint::CpuPwm.label())
    &&& number_in(entries, FieldName::CpuCommandPwm, 255) is Some
    &&& number_in(entries, FieldName::CpuReadbackPwm, 255) is Some
    &&& shown_in(entries, FieldName::CpuTachometerEndpoint) == Some(
        RuntimeEndpoint::CpuTachometer.label(),
    )
    &&& number_in(entries, FieldName::CpuRpmCommandPwm, 255) is Some
    &&& number_in(entries, FieldName::CpuRpm, 0xffff_ffff) is Some
    &&& shown_in(entries, FieldName::GpuPwmEndpoint) == Some(RuntimeEndpoint::GpuPwm.label())
    &&& number_in(entries, FieldName::GpuCommandPwm, 255) is Some
    &&& number_in(entries, FieldName::GpuReadbackPwm, 255) is Some
    &&& shown_in(entries, FieldName::GpuTachometerEndpoint) == Some(
        RuntimeEndpoint::GpuTachometer.label(),
    )
    &&& number_in(entries, FieldName::GpuRpmCommandPwm, 255) is Some
    &&& number_in(entries, FieldName::GpuRpm, 0xffff_ffff) is Some
}

/// Whether a text tells one of the states of external power.
pub open spec fn is_power_text(text: Seq<char>) -> bool {
    text == "connected"@ || text == "disconnected"@ || text == "unknown"@
}

/// Whether a text tells a truth value.
pub open spec fn is_truth_text(text: Seq<char>) -> bool {
    text == "true"@ || text == "false"@
}

/// Whether the values of an event's fields are ones that its kind allows.
pub open spec fn values_are_allowed(
    entries: Seq<FieldModel>,
    kind: EventKind,
    numbers: CycleNumbers,
) -> bool {
    match kind {
        EventKind::StateTransition => {
            &&& shows_state(entries, FieldName::FromState)
            &&& shows_state(entries, FieldName::ToState)
            &&& shown_in(entries, FieldName::Reason) matches Some(text)
                && RuntimeTransition::is_id(text)
        },
        EventKind::RuntimeFault => {
            &&& shown_in(entries, FieldName::FaultId) matches Some(text) && RuntimeFault::is_id(
                text,
            )
            &&& shown_in(entries, FieldName::Endpoint) matches Some(text) && (text == "none"@
                || RuntimeEndpoint::is_id(text))
        },
        EventKind::ControlCycle => {
            &&& numbers.cpu_temperature_is_finite
            &&& numbers.gpu_temperature_is_finite
            &&& shown_in(entries, FieldName::ExternalPower) matches Some(text) && is_power_text(
                text,
            )
            &&& shown_in(entries, FieldName::Profile) matches Some(text) && (text == "ac"@
                || text == "battery"@)
            &&& numbers.demand_is_percentage
            &&& cycle_fans_are_valid(entries)
        },
        EventKind::RestorationAttempt => {
            &&& number_in(entries, FieldName::Attempt, 255) matches Some(attempt) && 1 <= attempt
                <= 3
            &&& shown_in(entries, FieldName::CpuEnableEndpoint) == Some(
                RuntimeEndpoint::CpuEnable.label(),
            )
            &&& shown_in(entries, FieldName::CpuWriteSucceeded) matches Some(text)
                && is_truth_text(text)
            &&& shown_in(entries, FieldName::CpuModeReadback) matches Some(text)
                && RestorationReadback::is_id(text)
            &&& shown_in(entries, FieldName::GpuEnableEndpoint) == Some(
                RuntimeEndpoint::GpuEnable.label(),
            )
            &&& shown_in(entries, FieldName::GpuWriteSucceeded) matches Some(text)
                && is_truth_text(text)
            &&& shown_in(entries, FieldName::GpuModeReadback) matches Some(text)
                && RestorationReadback::is_id(text)
        },
    }
}

/// Whether an event of a kind is one that the journal may hold.
pub open spec fn is_event_of(
    entries: Seq<FieldModel>,
    kind: EventKind,
    numbers: CycleNumbers,
) -> bool {
    &&& shown_in(entries, FieldName::DiagnosticContract) == Some(
        "pt31553.typed-runtime-diagnostics.v1"@,
    )
    &&& all_short(entries)
    &&& shown_in(entries, FieldName::EventId) == Some(kind.label())
    &&& exact_fields(entries, kind)
    &&& shown_in(entries, FieldName::Message) == Some(kind.message_text())
    &&& values_are_allowed(entries, kind, numbers)
}

/// Whether an event is one that the journal may hold.
pub open spec fn is_typed_contract_event(entries: Seq<FieldModel>, numbers: CycleNumbers) -> bool {
    exists|kind: EventKind| is_event_of(entries, kind, numbers)
}

/// Events of different kinds have different ids.
pub proof fn ids_tell_kinds_apart(first: EventKind, second: EventKind)
    requires
        first.label() == second.label(),
    ensures
        first == second,
{
    reveal_strlit("pt31553.state-transition.v1");
    reveal_strlit("pt31553.runtime-fault.v1");
    reveal_strlit("pt31553.control-cycle.v1");
    reveal_strlit("pt31553.restoration-attempt.v1");
    assert("pt31553.runtime-fault.v1"@[8] == 'r');
    assert("pt31553.control-cycle.v1"@[8] == 'c');
    assert("pt31553.state-transition.v1"@.len() == 27);
    assert("pt31553.restoration-attempt.v1"@.len() == 30);
    assert("pt31553.runtime-fault.v1"@.len() == 24);
    assert("pt31553.control-cycle.v1"@.len() == 24);
}

impl DiagnosticFields {
    fn shows_state(&self, field: FieldName) -> (yes: bool)
        ensures
            yes == shows_state(self@, field),
    {
        match self.shown(field) {
            Some(text) => RuntimeState::knows(text),
            None => false,
        }
    }

    fn valid_state_transition(&self) -> (yes: bool)
        ensures
            forall|numbers: CycleNumbers|
                yes == #[trigger] values_are_allowed(self@, EventKind::StateTransition, numbers),
    {
        let reason = match self.shown(FieldName::Reason) {
            Some(text) => RuntimeTransition::knows(text),
            None => false,
        };
        reason && self.shows_state(FieldName::FromState) && self.shows_state(FieldName::ToState)
    }

    fn valid_fault(&self) -> (yes: bool)
        ensures
            forall|numbers: CycleNumbers|
                yes == #[trigger] values_are_allowed(self@, EventKind::RuntimeFault, numbers),
    {
        let fault = match self.shown(FieldName::FaultId) {
            Some(text) => RuntimeFault::knows(text),
            None => false,
        };
        let endpoint = match self.shown(FieldName::Endpoint) {
            Some(text) => same_text(text, "none") || RuntimeEndpoint::knows(text),
            None => false,
        };
        fault && endpoint
    }

    fn valid_cycle_fans(&self) -> (yes: bool)
        ensures
            yes == cycle_fans_are_valid(self@),
    {
        self.shows(FieldName::CpuPwmEndpoint, RuntimeEndpoint::CpuPwm.id()) && self.is_small(
            FieldName::CpuCommandPwm,
            255,
        ) && self.is_small(FieldName::CpuReadbackPwm, 255) && self.shows(
            FieldName::CpuTachometerEndpoint,
            RuntimeEndpoint::CpuTachometer.id(),
        ) && self.is_small(FieldName::CpuRpmCommandPwm, 255) && self.is_small(
            FieldName::CpuRpm,
            0xffff_ffff,
        ) && self.shows(FieldName::GpuPwmEndpoint, RuntimeEndpoint::GpuPwm.id()) && self.is_small(
            FieldName::GpuCommandPwm,
            255,
        ) && self.is_small(FieldName::GpuReadbackPwm, 255) && self.shows(
            FieldName::GpuTachometerEndpoint,
            RuntimeEndpoint::GpuTachometer.id(),
        ) && self.is_small(FieldName::GpuRpmCommandPwm, 255) && self.is_small(
            FieldName::GpuRpm,
            0xffff_ffff,
        )
    }

    fn valid_control_cycle(&self, numbers: CycleNumbers) -> (yes: bool)
        ensures
            yes == values_are_allowed(self@, EventKind::ControlCycle, numbers),
    {
        let power = match self.shown(FieldName::ExternalPower) {
            Some(text) => same_text(text, "connected") || same_text(text, "disconnected")
                || same_text(text, "unknown"),
            None => false,
        };
        let profile = match self.shown(FieldName::Profile) {
            Some(text) => same_text(text, "ac") || same_text(text, "battery"),
            None => false,
        };
        numbers.cpu_temperature_is_finite && numbers.gpu_temperature_is_finite && power && profile
            && numbers.demand_is_percentage && self.valid_cycle_fans()
    }

    fn shows_truth(&self, field: FieldName) -> (yes: bool)
        ensures
            yes == (shown_in(self@, field) matches Some(text) && is_truth_text(text)),
    {
        match self.shown(field) {
            Some(text) => same_text(text, "true") || same_text(text, "false"),
            None => false,
        }
    }

    fn shows_readback(&self, field: FieldName) -> (yes: bool)
        ensures
            yes == (shown_in(self@, field) matches Some(text) && RestorationReadback::is_id(text)),
    {
        match self.shown(field) {
            Some(text) => RestorationReadback::knows(text),
            None => false,
        }
    }

    fn valid_restoration_attempt(&self) -> (yes: bool)
        ensures
            forall|numbers: CycleNumbers|
                yes == #[trigger] values_are_allowed(self@, EventKind::RestorationAttempt, numbers),
    {
        let attempt = match self.number(FieldName::Attempt, 255) {
            Some(attempt) => 1 <= attempt && attempt <= 3,
            None => false,
        };
        attempt && self.shows(FieldName::CpuEnableEndpoint, RuntimeEndpoint::CpuEnable.id())
            && self.shows_truth(FieldName::CpuWriteSucceeded) && self.shows_readback(
            FieldName::CpuModeReadback,
        ) && self.shows(FieldName::GpuEnableEndpoint, RuntimeEndpoint::GpuEnable.id())
            && self.shows_truth(FieldName::GpuWriteSucceeded) && self.shows_readback(
            FieldName::GpuModeReadback,
        )
    }

    fn is_event_of(&self, kind: EventKind, numbers: CycleNumbers) -> (yes: bool)
        ensures
            yes == is_event_of(self@, kind, numbers),
    {
        if !self.shows(FieldName::DiagnosticContract, DIAGNOSTIC_CONTRACT_MARKER) {
            return false;
        }
        if !self.values_are_short() || !self.shows(FieldName::EventId, kind.id())
            || !self.has_exact_fields(kind) || !self.shows(FieldName::Message, kind.message()) {
            return false;
        }
        match kind {
            EventKind::StateTransition => self.valid_state_transition(),
            EventKind::RuntimeFault => self.valid_fault(),
            EventKind::ControlCycle => self.valid_control_cycle(numbers),
            EventKind::RestorationAttempt => self.valid_restoration_attempt(),
        }
    }

    /// Whether the event is one that the journal may hold.
    pub fn is_typed_contract_event(&self, numbers: CycleNumbers) -> (yes: bool)
        ensures
            yes == is_typed_contract_event(self@, numbers),
    {
        let transition = self.is_event_of(EventKind::StateTransition, numbers);
        let fault = self.is_event_of(EventKind::RuntimeFault, numbers);
        let cycle = self.is_event_of(EventKind::ControlCycle, numbers);
        let restoration = self.is_event_of(EventKind::RestorationAttempt, numbers);
        proof {
            if is_typed_contract_event(self@, numbers) {
                let kind = choose|kind: EventKind| is_event_of(self@, kind, numbers);
                match kind {
                    EventKind::StateTransition => {},
                    EventKind::RuntimeFault => {},
                    EventKind::ControlCycle => {},
                    EventKind::RestorationAttempt => {},
                }
            }
        }
        transition || fault || cycle || restoration
    }
}

} // verus!
