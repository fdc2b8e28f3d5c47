//! The telemetry that the calls of a run brought, and what its record holds of it.

use vstd::prelude::*;
use crate::evidence::TelemetrySampleEvidence;
use crate::run_log::SlopeMeter;
use crate::thermal::FinalSlopes;

verus! {

/// A call that may bring a telemetry sample.
pub trait Observes: Sized {
    /// The sample that came back.
    spec fn sample(self) -> Option<TelemetrySampleEvidence>;
}

/// The samples that calls brought, in order.
#[verifier::opaque]
pub open spec fn observed<C: Observes>(calls: Seq<C>) -> Seq<TelemetrySampleEvidence>
    decreases calls.len(),
{
    if calls.len() == 0 {
        Seq::empty()
    } else {
        match calls.last().sample() {
            Some(sample) => observed(calls.drop_last()).push(sample),
            None => observed(calls.drop_last()),
        }
    }
}

/// Nothing is observed where there is no call.
pub broadcast proof fn lemma_nothing_observed<C: Observes>()
    ensures
        #[trigger] observed(Seq::<C>::empty()) == Seq::<TelemetrySampleEvidence>::empty(),
{
    reveal(observed);
}

/// One more call brings a sample or does not.
pub broadcast proof fn lemma_one_more_observed<C: Observes>(calls: Seq<C>, call: C)
    ensures
        #[trigger] observed(calls.push(call)) == match call.sample() {
            Some(sample) => observed(calls).push(sample),
            None => observed(calls),
        },
{
    reveal(observed);
    assert(calls.push(call).drop_last() =~= calls);
}

pub broadcast group group_observed {
    lemma_nothing_observed,
    lemma_one_more_observed,
}

/// Whether the samples on record are those that were brought, in order. Only of the last one may the
/// record hold something else, or nothing, and that only where a fault came up.
pub open spec fn samples_came(
    samples: Seq<TelemetrySampleEvidence>,
    brought: Seq<TelemetrySampleEvidence>,
    faultless: bool,
) -> bool {
    &&& samples.len() <= brought.len() <= samples.len() + 1
    &&& forall|i: int|
        0 <= i < samples.len() - 1 ==> #[trigger] samples[i] == brought[i]
    &&& faultless ==> samples =~= brought
}

/// Whether a meter was asked for the slopes of samples, once, and gave these.
pub open spec fn slopes_came<M: SlopeMeter + ?Sized>(
    before: &M,
    after: &M,
    samples: Seq<TelemetrySampleEvidence>,
    slopes: FinalSlopes,
) -> bool {
    after.history() == before.history().push((samples, slopes))
}

} // verus!
