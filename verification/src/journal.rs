//! The native journald framing of runtime events.

use vstd::bytes::{
    lemma_auto_spec_u64_to_from_le_bytes, spec_u64_from_le_bytes, spec_u64_to_le_bytes,
    u64_to_le_bytes,
};
use vstd::prelude::*;
use vstd::string::*;
use vstd::utf8::*;
use crate::diagnostics::{
    is_typed_contract_event, CycleNumbers, DiagnosticFields, FieldModel, RUNTIME_TARGET,
};
use crate::text::{lemma_encoding_is_injective, same_text};

verus! {

broadcast use vstd::string::group_string_axioms;

/// How grave an event is.
#[derive(Debug, Clone, Copy, PartialEq, Eq, Structural)]
pub enum EventLevel {
    Error,
    Warn,
    Info,
    Debug,
    Trace,
}

impl EventLevel {
    /// The text of the journal's priority.
    pub open spec fn priority_text(self) -> Seq<char> {
        match self {
            EventLevel::Error => "3"@,
            EventLevel::Warn => "4"@,
            EventLevel::Info => "5"@,
            EventLevel::Debug => "6"@,
            EventLevel::Trace => "7"@,
        }
    }

    pub fn priority(self) -> (priority: &'static str)
        ensures
            priority@ == self.priority_text(),
    {
        match self {
            EventLevel::Error => "3",
            EventLevel::Warn => "4",
            EventLevel::Info => "5",
            EventLevel::Debug => "6",
            EventLevel::Trace => "7",
        }
    }
}

/// A field as the journal takes it: its name and a line feed, the length of its value in eight
/// bytes, the least significant first, the value and another line feed.
pub open spec fn native_field(name: Seq<char>, value: Seq<char>) -> Seq<u8> {
    encode_utf8(name) + seq![10u8] + spec_u64_to_le_bytes(encode_utf8(value).len() as u64)
        + encode_utf8(value) + seq![10u8]
}

/// The fields that have a native name, one after another.
pub open spec fn native_fields(entries: Seq<FieldModel>) -> Seq<u8>
    decreases entries.len(),
{
    if entries.len() == 0 {
        Seq::empty()
    } else {
        let entry = entries.last();
        let before = native_fields(entries.drop_last());
        match entry.field.native_label() {
            Some(name) => before + native_field(name, entry.value),
            None => before,
        }
    }
}

/// The datagram of an event.
pub open spec fn native_payload(level: EventLevel, entries: Seq<FieldModel>) -> Seq<u8> {
    native_field("PRIORITY"@, level.priority_text()) + native_fields(entries)
}

fn put_bytes(payload: &mut Vec<u8>, bytes: &[u8])
    ensures
        final(payload)@ == old(payload)@ + bytes@,
{
    let ghost before = payload@;
    let mut i: usize = 0;
    proof {
        assert(before + bytes@.take(0) =~= before);
    }
    while i < bytes.len()
        invariant
            i <= bytes.len(),
            payload@ == before + bytes@.take(i as int),
        decreases bytes.len() - i,
    {
        payload.push(bytes[i]);
        i = i + 1;
        assert(payload@ =~= before + bytes@.take(i as int));
    }
    assert(bytes@.take(i as int) =~= bytes@);
}

/// Appends a field as the journal takes it.
pub fn put_native_field(payload: &mut Vec<u8>, name: &str, value: &str)
    ensures
        final(payload)@ == old(payload)@ + native_field(name@, value@),
{
    let ghost before = payload@;
    put_bytes(payload, name.as_bytes());
    payload.push(10);
    let bytes = value.as_bytes();
    let length = u64_to_le_bytes(bytes.len() as u64);
    put_bytes(payload, length.as_slice());
    put_bytes(payload, bytes);
    payload.push(10);
    assert(payload@ =~= before + native_field(name@, value@));
}

impl DiagnosticFields {
    /// Frames the event.
    pub fn payload(&self, level: EventLevel) -> (payload: Vec<u8>)
        ensures
            payload@ == native_payload(level, self@),
    {
        let mut payload: Vec<u8> = Vec::new();
        put_native_field(&mut payload, "PRIORITY", level.priority());
        let ghost start = payload@;
        proof {
            assert(start =~= native_field("PRIORITY"@, level.priority_text()));
            assert(start + native_fields(self@.take(0)) =~= start);
        }
        let count = self.len();
        let mut i: usize = 0;
        while i < count
            invariant
                i <= count,
                count == self@.len(),
                payload@ == start + native_fields(self@.take(i as int)),
            decreases count - i,
        {
            let entry = self.get(i);
            let ghost longer = self@.take(i + 1);
            assert(longer.drop_last() =~= self@.take(i as int));
            assert(longer.last() == entry@);
            match entry.field.native_name() {
                Some(name) => {
                    put_native_field(&mut payload, name, entry.value.as_str());
                    assert(payload@ =~= start + native_fields(longer));
                },
                None => {},
            }
            i = i + 1;
        }
        assert(self@.take(i as int) =~= self@);
        payload
    }
}

/// Decides what is sent to the journal for a recorded event: nothing, unless it was recorded under
/// the controller's own target and holds nothing but the closed vocabulary.
pub fn journal_entry(
    target: &str,
    level: EventLevel,
    fields: &DiagnosticFields,
    numbers: CycleNumbers,
) -> (payload: Option<Vec<u8>>)
    ensures
        match payload {
            Some(payload) => target@ == "pt31553.runtime"@ && is_typed_contract_event(
                fields@,
                numbers,
            ) && payload@ == native_payload(level, fields@),
            None => target@ != "pt31553.runtime"@ || !is_typed_contract_event(fields@, numbers),
        },
{
    if !same_text(target, RUNTIME_TARGET) || !fields.is_typed_contract_event(numbers) {
        return None;
    }
    Some(fields.payload(level))
}

/// Whether a name can be framed: its bytes hold no line feed.
pub open spec fn is_native_name(name: Seq<char>) -> bool {
    forall|i: int| 0 <= i < encode_utf8(name).len() ==> encode_utf8(name)[i] != 10
}

/// A framed field reads back: whatever follows it, its bytes fix its name, its value and where it
/// ends.
pub proof fn framing_is_unambiguous(
    name: Seq<char>,
    value: Seq<char>,
    rest: Seq<u8>,
    other_name: Seq<char>,
    other_value: Seq<char>,
    other_rest: Seq<u8>,
)
    requires
        is_native_name(name),
        is_native_name(other_name),
        encode_utf8(value).len() <= u64::MAX,
        encode_utf8(other_value).len() <= u64::MAX,
        native_field(name, value) + rest == native_field(other_name, other_value) + other_rest,
    ensures
        name == other_name,
        value == other_value,
        rest == other_rest,
{
    let n = encode_utf8(name);
    let v = encode_utf8(value);
    let on = encode_utf8(other_name);
    let ov = encode_utf8(other_value);
    let all = native_field(name, value) + rest;
    let other = native_field(other_name, other_value) + other_rest;
    lemma_auto_spec_u64_to_from_le_bytes();
    let l = spec_u64_to_le_bytes(v.len() as u64);
    let ol = spec_u64_to_le_bytes(ov.len() as u64);
    assert(l.len() == 8 && ol.len() == 8);
    assert(all[n.len() as int] == 10);
    assert(other[on.len() as int] == 10);
    if n.len() < on.len() {
        assert(other[n.len() as int] == on[n.len() as int]);
    } else if on.len() < n.len() {
        assert(all[on.len() as int] == n[on.len() as int]);
    }
    assert(n =~= all.take(n.len() as int));
    assert(on =~= other.take(on.len() as int));
    lemma_encoding_is_injective(name, other_name);
    let k: int = n.len() as int + 1;
    assert(l =~= all.subrange(k, k + 8));
    assert(ol =~= other.subrange(k, k + 8));
    assert(spec_u64_from_le_bytes(l) == spec_u64_from_le_bytes(ol));
    assert(v =~= all.subrange(k + 8, k + 8 + v.len()));
    assert(ov =~= other.subrange(k + 8, k + 8 + ov.len()));
    lemma_encoding_is_injective(value, other_value);
    assert(rest =~= all.skip(k + 9 + v.len()));
    assert(other_rest =~= other.skip(k + 9 + v.len()));
}

} // verus!
