//! The calls that a run makes on what it was given, in order and no others.
//!
//! A trace begins where a run begins, and follows what the run was given from call to call: each
//! call is one whose answer came back in the state that the call before it left.

use vstd::prelude::*;

verus! {

/// What was asked of something so far, in order, with what came back. Only contracts speak of it, and no
/// code reads it.
pub type History<C> = Seq<C>;

/// A call, with what was asked and what came back.
pub trait CallOn<E: ?Sized>: Sized {
    /// Whether the answer is one that came back for the request in a state, and may have left
    /// another.
    spec fn came(self, before: &E, after: &E) -> bool;
}

/// A call that may act on the machine, or only asks it.
pub trait Effect: Sized {
    /// Whether the call acts.
    spec fn acts(self) -> bool;
}

/// The calls that act, in order.
#[verifier::opaque]
pub open spec fn effects<C: Effect>(calls: Seq<C>) -> Seq<C>
    decreases calls.len(),
{
    if calls.len() == 0 {
        Seq::empty()
    } else if calls.last().acts() {
        effects(calls.drop_last()).push(calls.last())
    } else {
        effects(calls.drop_last())
    }
}

/// No call acts where there is none.
pub broadcast proof fn lemma_no_effects<C: Effect>()
    ensures
        #[trigger] effects(Seq::<C>::empty()) == Seq::<C>::empty(),
{
    reveal(effects);
}

/// One more call acts or does not.
pub broadcast proof fn lemma_effects_of_one_more<C: Effect>(calls: Seq<C>, call: C)
    ensures
        #[trigger] effects(calls.push(call)) == if call.acts() {
            effects(calls).push(call)
        } else {
            effects(calls)
        },
{
    reveal(effects);
    assert(calls.push(call).drop_last() =~= calls);
}

pub broadcast group group_effects {
    lemma_no_effects,
    lemma_effects_of_one_more,
}

/// Whether calls go on from earlier ones.
pub open spec fn goes_on<C>(earlier: Seq<C>, later: Seq<C>) -> bool {
    earlier.len() <= later.len() && forall|i: int|
        0 <= i < earlier.len() ==> #[trigger] later[i] == earlier[i]
}

/// Whether states lie between calls.
pub open spec fn are_states<E: ?Sized, C: CallOn<E>>(
    states: Seq<&E>,
    before: &E,
    calls: Seq<C>,
    after: &E,
) -> bool {
    &&& states.len() == calls.len() + 1
    &&& states[0] == before
    &&& states.last() == after
    &&& forall|i: int| 0 <= i < calls.len() ==> (#[trigger] calls[i]).came(
        states[i],
        states[i + 1],
    )
}

/// Whether these calls, and no others, led from one state to another.
#[verifier::opaque]
pub open spec fn ran<E: ?Sized, C: CallOn<E>>(before: &E, calls: Seq<C>, after: &E) -> bool {
    exists|states: Seq<&E>| #[trigger] are_states(states, before, calls, after)
}

/// The calls that were made so far.
pub struct Trace<'a, E: ?Sized, C> {
    start: Ghost<&'a E>,
    calls: Ghost<Seq<C>>,
}

impl<'a, E: ?Sized, C: CallOn<E>> Trace<'a, E, C> {
    /// The state in which the trace began.
    pub closed spec fn start(&self) -> &E {
        self.start@
    }

    /// The calls, in order.
    pub closed spec fn calls(&self) -> Seq<C> {
        self.calls@
    }

    /// Whether the calls, and no others, led to a state.
    pub open spec fn follows(&self, current: &E) -> bool {
        ran(self.start(), self.calls(), current)
    }

    /// Begins a trace.
    pub fn begin(subject: &E) -> (trace: Self)
        ensures
            trace.start() == subject,
            trace.calls() == Seq::<C>::empty(),
            trace.follows(subject),
    {
        let trace = Trace { start: Ghost(subject), calls: Ghost(Seq::empty()) };
        proof {
            lemma_nothing_ran::<E, C>(subject, subject);
        }
        trace
    }

    /// Adds a call.
    pub fn add(&mut self, Ghost(before): Ghost<&E>, Ghost(call): Ghost<C>, subject: &E)
        requires
            old(self).follows(before),
            call.came(before, subject),
        ensures
            final(self).start() == old(self).start(),
            final(self).calls() == old(self).calls().push(call),
            final(self).follows(subject),
    {
        proof {
            lemma_ran_further(self.start(), self.calls(), before, call, subject);
        }
        self.calls = Ghost(self.calls@.push(call));
    }
}

/// Where nothing is called, nothing changes.
pub proof fn lemma_nothing_ran<E: ?Sized, C: CallOn<E>>(before: &E, after: &E)
    ensures
        ran(before, Seq::<C>::empty(), after) <==> before == after,
{
    reveal(ran);
    if before == after {
        assert(are_states::<E, C>(seq![before], before, Seq::<C>::empty(), after));
    }
}

/// One more call leads on from where the calls before it led.
pub proof fn lemma_ran_further<E: ?Sized, C: CallOn<E>>(
    start: &E,
    calls: Seq<C>,
    before: &E,
    call: C,
    after: &E,
)
    requires
        ran(start, calls, before),
        call.came(before, after),
    ensures
        ran(start, calls.push(call), after),
{
    reveal(ran);
    let states = choose|states: Seq<&E>| are_states(states, start, calls, before);
    let longer = states.push(after);
    assert forall|i: int| 0 <= i < calls.push(call).len() implies (
    #[trigger] calls.push(call)[i]).came(longer[i], longer[i + 1]) by {
        if i < calls.len() {
            assert(calls[i].came(states[i], states[i + 1]));
        }
    }
    assert(are_states(longer, start, calls.push(call), after));
}

/// Calls that follow on others lead on from where those led.
pub proof fn lemma_ran_on<E: ?Sized, C: CallOn<E>>(
    start: &E,
    first: Seq<C>,
    between: &E,
    second: Seq<C>,
    end: &E,
)
    requires
        ran(start, first, between),
        ran(between, second, end),
    ensures
        ran(start, first + second, end),
{
    reveal(ran);
    let one = choose|states: Seq<&E>| are_states(states, start, first, between);
    let two = choose|states: Seq<&E>| are_states(states, between, second, end);
    let all = one + two.skip(1);
    let calls = first + second;
    assert forall|i: int| 0 <= i < calls.len() implies (#[trigger] calls[i]).came(
        all[i],
        all[i + 1],
    ) by {
        if i < first.len() {
            assert(first[i].came(one[i], one[i + 1]));
        } else {
            assert(second[i - first.len()].came(two[i - first.len()], two[i - first.len() + 1]));
        }
    }
    assert(all.last() == end);
    assert(are_states(all, start, calls, end));
}

} // verus!
