//! Lists that a qualification run builds up: faults, transitions, readbacks.

use vstd::prelude::*;
use vstd::string::*;
use crate::evidence::{
    EvidenceFan, EvidenceTimestamp, FanReadbackEvidence, FanReadbackField, FanReadbackPhase,
    FaultEvidence, ObservationOutcome, StateTransitionEvidence, TelemetrySampleEvidence,
};
use crate::text::{text_option, texts};
use crate::thermal::FinalSlopes;

verus! {

broadcast use vstd::string::group_string_axioms;

/// The contents of a fault.
pub struct FaultModel {
    pub timestamp: EvidenceTimestamp,
    pub boot_id: Option<Seq<char>>,
    pub code: Seq<char>,
    pub detail: Seq<char>,
}

/// The contents of a state transition.
pub struct TransitionModel {
    pub timestamp: EvidenceTimestamp,
    pub boot_id: Option<Seq<char>>,
    pub from: Seq<char>,
    pub to: Seq<char>,
}

/// The contents of a readback.
pub struct ReadbackModel {
    pub timestamp: EvidenceTimestamp,
    pub source_timestamp: Option<EvidenceTimestamp>,
    pub fresh: Option<bool>,
    pub boot_id: Option<Seq<char>>,
    pub fan: EvidenceFan,
    pub field: FanReadbackField,
    pub value: Option<u32>,
    pub endpoint_identity: Seq<char>,
    pub outcome: ObservationOutcome,
    pub phase: Option<FanReadbackPhase>,
}

impl View for FaultEvidence {
    type V = FaultModel;

    open spec fn view(&self) -> FaultModel {
        FaultModel {
            timestamp: self.timestamp,
            boot_id: text_option(self.boot_id),
            code: self.code@,
            detail: self.detail@,
        }
    }
}

impl View for StateTransitionEvidence {
    type V = TransitionModel;

    open spec fn view(&self) -> TransitionModel {
        TransitionModel {
            timestamp: self.timestamp,
            boot_id: text_option(self.boot_id),
            from: self.from@,
            to: self.to@,
        }
    }
}

impl View for FanReadbackEvidence {
    type V = ReadbackModel;

    open spec fn view(&self) -> ReadbackModel {
        ReadbackModel {
            timestamp: self.timestamp,
            source_timestamp: self.source_timestamp,
            fresh: self.fresh,
            boot_id: text_option(self.boot_id),
            fan: self.fan,
            field: self.field,
            value: self.value,
            endpoint_identity: self.endpoint_identity@,
            outcome: self.outcome,
            phase: self.phase,
        }
    }
}

/// The contents of a list of faults.
pub open spec fn fault_list(faults: Seq<FaultEvidence>) -> Seq<FaultModel> {
    faults.map_values(|f: FaultEvidence| f@)
}

/// The contents of a list of transitions.
pub open spec fn transition_list(transitions: Seq<StateTransitionEvidence>) -> Seq<
    TransitionModel,
> {
    transitions.map_values(|t: StateTransitionEvidence| t@)
}

/// The contents of a list of readbacks.
pub open spec fn readback_list(readbacks: Seq<FanReadbackEvidence>) -> Seq<ReadbackModel> {
    readbacks.map_values(|r: FanReadbackEvidence| r@)
}

/// A fault outside any particular boot.
pub open spec fn fault(at: EvidenceTimestamp, code: Seq<char>, detail: Seq<char>) -> FaultModel {
    FaultModel { timestamp: at, boot_id: None, code, detail }
}

/// A list of faults with one more where a condition holds.
pub open spec fn with_fault_if(
    faults: Seq<FaultModel>,
    condition: bool,
    added: FaultModel,
) -> Seq<FaultModel> {
    if condition {
        faults.push(added)
    } else {
        faults
    }
}

/// Records a fault.
pub(crate) fn push_fault(
    faults: &mut Vec<FaultEvidence>,
    at: EvidenceTimestamp,
    code: &str,
    detail: &str,
)
    ensures
        fault_list(final(faults)@) == fault_list(old(faults)@).push(fault(at, code@, detail@)),
        final(faults)@.len() == old(faults)@.len() + 1,
{
    faults.push(
        FaultEvidence {
            timestamp: at,
            boot_id: None,
            code: code.to_owned(),
            detail: detail.to_owned(),
        },
    );
    proof {
        assert(fault_list(faults@) =~= fault_list(old(faults)@).push(fault(at, code@, detail@)));
    }
}

/// A transition outside any particular boot.
pub open spec fn transition(
    at: EvidenceTimestamp,
    from: Seq<char>,
    to: Seq<char>,
) -> TransitionModel {
    TransitionModel { timestamp: at, boot_id: None, from, to }
}

/// Records a transition.
pub(crate) fn push_transition(
    transitions: &mut Vec<StateTransitionEvidence>,
    at: EvidenceTimestamp,
    from: &str,
    to: &str,
)
    ensures
        transition_list(final(transitions)@) == transition_list(old(transitions)@).push(
            transition(at, from@, to@),
        ),
        final(transitions)@.len() == old(transitions)@.len() + 1,
        final(transitions)@.take(old(transitions)@.len() as int) == old(transitions)@,
{
    transitions.push(
        StateTransitionEvidence {
            timestamp: at,
            boot_id: None,
            from: from.to_owned(),
            to: to.to_owned(),
        },
    );
    proof {
        assert(transition_list(transitions@) =~= transition_list(old(transitions)@).push(
            transition(at, from@, to@),
        ));
        assert(transitions@.take(old(transitions)@.len() as int) =~= old(transitions)@);
    }
}

/// Records a readback.
pub(crate) fn push_readback(
    readbacks: &mut Vec<FanReadbackEvidence>,
    readback: FanReadbackEvidence,
)
    ensures
        final(readbacks)@ == old(readbacks)@.push(readback),
        readback_list(final(readbacks)@) == readback_list(old(readbacks)@).push(readback@),
{
    readbacks.push(readback);
    proof {
        assert(readback_list(readbacks@) =~= readback_list(old(readbacks)@).push(readback@));
    }
}

/// Moves readbacks to the end of a list.
pub(crate) fn append_readbacks(
    readbacks: &mut Vec<FanReadbackEvidence>,
    mut more: Vec<FanReadbackEvidence>,
)
    ensures
        final(readbacks)@ == old(readbacks)@ + more@,
        readback_list(final(readbacks)@) == readback_list(old(readbacks)@) + readback_list(more@),
{
    let ghost added = more@;
    readbacks.append(&mut more);
    proof {
        assert(readbacks@ =~= old(readbacks)@ + added);
        assert(readback_list(readbacks@) =~= readback_list(old(readbacks)@) + readback_list(
            added,
        ));
    }
}

/// A text, or another one in place of an empty text.
pub open spec fn nonempty_text(detail: Seq<char>, fallback: Seq<char>) -> Seq<char> {
    if detail.len() == 0 {
        fallback
    } else {
        detail
    }
}

/// Replaces an empty text.
pub(crate) fn nonempty(detail: &str, fallback: &str) -> (text: String)
    ensures
        text@ == nonempty_text(detail@, fallback@),
{
    if detail.is_empty() {
        fallback.to_owned()
    } else {
        detail.to_owned()
    }
}

/// One fault per reported detail.
pub open spec fn reported_faults(
    faults: Seq<FaultModel>,
    at: EvidenceTimestamp,
    code: Seq<char>,
    details: Seq<Seq<char>>,
    fallback: Seq<char>,
) -> Seq<FaultModel>
    decreases details.len(),
{
    if details.len() == 0 {
        faults
    } else {
        reported_faults(faults, at, code, details.drop_last(), fallback).push(
            fault(at, code, nonempty_text(details.last(), fallback)),
        )
    }
}

/// Every reported detail is one more fault.
pub(crate) proof fn lemma_reported_faults(
    faults: Seq<FaultModel>,
    at: EvidenceTimestamp,
    code: Seq<char>,
    details: Seq<Seq<char>>,
    fallback: Seq<char>,
)
    ensures
        reported_faults(faults, at, code, details, fallback).len() == faults.len() + details.len(),
    decreases details.len(),
{
    if details.len() > 0 {
        lemma_reported_faults(faults, at, code, details.drop_last(), fallback);
    }
}

/// Records one fault per reported detail.
pub(crate) fn push_reported_faults(
    faults: &mut Vec<FaultEvidence>,
    at: EvidenceTimestamp,
    code: &str,
    details: &Vec<String>,
    fallback: &str,
)
    ensures
        fault_list(final(faults)@) == reported_faults(
            fault_list(old(faults)@),
            at,
            code@,
            texts(details@),
            fallback@,
        ),
        final(faults)@.len() == old(faults)@.len() + details@.len(),
{
    let ghost models = texts(details@);
    let mut i: usize = 0;
    assert(models.take(0) =~= Seq::<Seq<char>>::empty());
    while i < details.len()
        invariant
            i <= details.len(),
            models == texts(details@),
            models.len() == details@.len(),
            faults@.len() == old(faults)@.len() + i,
            fault_list(faults@) == reported_faults(
                fault_list(old(faults)@),
                at,
                code@,
                models.take(i as int),
                fallback@,
            ),
        decreases details.len() - i,
    {
        proof {
            let longer = models.take(i + 1);
            assert(longer.drop_last() =~= models.take(i as int));
            assert(longer.last() == details@[i as int]@);
        }
        push_fault(faults, at, code, nonempty(details[i].as_str(), fallback).as_str());
        i = i + 1;
    }
    assert(models.take(models.len() as int) =~= models);
}

/// Every text of a list, with an empty one replaced.
pub open spec fn nonempty_texts(details: Seq<Seq<char>>, fallback: Seq<char>) -> Seq<Seq<char>> {
    details.map_values(|detail: Seq<char>| nonempty_text(detail, fallback))
}

/// Replaces the empty texts of a list.
pub(crate) fn fill_empty(details: &Vec<String>, fallback: &str) -> (filled: Vec<String>)
    ensures
        texts(filled@) == nonempty_texts(texts(details@), fallback@),
{
    let mut filled: Vec<String> = Vec::new();
    let mut i: usize = 0;
    while i < details.len()
        invariant
            i <= details.len(),
            filled@.len() == i,
            forall|k: int|
                0 <= k < i ==> (#[trigger] filled@[k])@ == nonempty_text(details@[k]@, fallback@),
        decreases details.len() - i,
    {
        filled.push(nonempty(details[i].as_str(), fallback));
        i = i + 1;
    }
    assert(texts(filled@) =~= nonempty_texts(texts(details@), fallback@));
    filled
}

/// Adds copies of texts to a list.
pub(crate) fn extend_texts(list: &mut Vec<String>, more: &Vec<String>)
    ensures
        texts(final(list)@) == texts(old(list)@) + texts(more@),
{
    let mut i: usize = 0;
    assert(texts(list@) =~= texts(old(list)@) + texts(more@).take(0));
    while i < more.len()
        invariant
            i <= more.len(),
            texts(list@) == texts(old(list)@) + texts(more@).take(i as int),
        decreases more.len() - i,
    {
        let ghost before = texts(list@);
        list.push(more[i].clone());
        proof {
            assert(texts(list@) =~= before.push(more@[i as int]@));
            assert(texts(more@).take(i + 1) =~= texts(more@).take(i as int).push(
                more@[i as int]@,
            ));
            assert(texts(list@) =~= texts(old(list)@) + texts(more@).take(i + 1));
        }
        i = i + 1;
    }
    assert(texts(more@).take(more@.len() as int) =~= texts(more@));
}

/// The detail of the first fault, or another text where there is none.
pub open spec fn first_detail(faults: Seq<FaultModel>, otherwise: Seq<char>) -> Seq<char> {
    if faults.len() == 0 {
        otherwise
    } else {
        faults[0].detail
    }
}

/// Finds [`first_detail`].
pub(crate) fn first_fault_detail(faults: &Vec<FaultEvidence>, otherwise: &str) -> (detail: String)
    ensures
        detail@ == first_detail(fault_list(faults@), otherwise@),
{
    assert(fault_list(faults@).len() == faults@.len());
    if faults.len() == 0 {
        otherwise.to_owned()
    } else {
        assert(fault_list(faults@)[0] == faults@[0]@);
        faults[0].detail.clone()
    }
}

/// Whether a temperature is one that a sensor can plausibly report.
pub open spec fn plausible(value: i32, maximum: int) -> bool {
    -40_000 <= value <= maximum
}

/// Decides [`plausible`].
pub(crate) fn plausible_temperature(value: i32, maximum: i32) -> (yes: bool)
    ensures
        yes == plausible(value, maximum as int),
{
    -40_000 <= value && value <= maximum
}

/// Fits the final temperature slopes of a sample series, in floating point.
pub trait SlopeMeter {
    /// The sample series that were measured so far, each with its slopes.
    spec fn history(&self) -> Seq<(Seq<TelemetrySampleEvidence>, FinalSlopes)>;

    fn measure(&mut self, samples: &Vec<TelemetrySampleEvidence>) -> (answer: FinalSlopes)
        ensures
            final(self).history() == old(self).history().push((samples@, answer)),
    ;
}

} // verus!
