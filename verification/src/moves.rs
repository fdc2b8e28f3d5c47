//! Moves that are due one after another, and the calls that make them.

use vstd::prelude::*;
use crate::acer_hwmon::DeviceModel;
use crate::controller_calls::ControllerCall;
use crate::trace::goes_on;

verus! {

/// One thing that is due to be called on a device. Failures are of type `F`.
pub trait Move<F>: Sized {
    /// Whether a call is the one that is due, and its answer has a result.
    spec fn tells(self, call: ControllerCall, device: DeviceModel, result: Result<(), F>) -> bool;
}

/// Why something failed.
pub open spec fn failure_of<T, F>(result: Result<T, F>) -> Option<F> {
    match result {
        Ok(_) => None,
        Err(failure) => Some(failure),
    }
}

/// Whether the calls since are exactly those that are due, in order. Where there is a failure, it is
/// what the answer to the last call gives, every call before it succeeded, and nothing that was due
/// after it is called.
#[verifier::opaque]
pub open spec fn moves_went<F, M: Move<F>>(
    earlier: Seq<ControllerCall>,
    later: Seq<ControllerCall>,
    moves: Seq<M>,
    device: DeviceModel,
    failure: Option<F>,
) -> bool {
    let count = later.len() - earlier.len();
    &&& goes_on(earlier, later)
    &&& match failure {
        None => {
            &&& count == moves.len()
            &&& forall|i: int|
                0 <= i < count ==> (#[trigger] moves[i]).tells(
                    later[earlier.len() + i],
                    device,
                    Ok::<(), F>(()),
                )
        },
        Some(failure) => {
            &&& 0 < count <= moves.len()
            &&& forall|i: int|
                0 <= i < count - 1 ==> (#[trigger] moves[i]).tells(
                    later[earlier.len() + i],
                    device,
                    Ok::<(), F>(()),
                )
            &&& moves[count - 1].tells(later.last(), device, Err::<(), F>(failure))
        },
    }
}

/// Calls that go on from others.
pub proof fn lemma_moves_go_on<F, M: Move<F>>(
    earlier: Seq<ControllerCall>,
    later: Seq<ControllerCall>,
    moves: Seq<M>,
    device: DeviceModel,
    failure: Option<F>,
)
    requires
        moves_went(earlier, later, moves, device, failure),
    ensures
        goes_on(earlier, later),
        failure is None ==> later.len() == earlier.len() + moves.len(),
        failure is Some ==> earlier.len() < later.len() <= earlier.len() + moves.len(),
{
    reveal(moves_went);
}

/// One call makes the one move that is due.
pub proof fn lemma_one_move<F, M: Move<F>>(
    earlier: Seq<ControllerCall>,
    call: ControllerCall,
    due: M,
    device: DeviceModel,
    result: Result<(), F>,
)
    requires
        due.tells(call, device, result),
    ensures
        moves_went(earlier, earlier.push(call), seq![due], device, failure_of(result)),
{
    reveal(moves_went);
    let later = earlier.push(call);
    assert(later.last() == call);
    assert(later[earlier.len() as int] == call);
    assert(seq![due][0] == due);
    if result is Ok {
        assert(result->Ok_0 == ());
    }
}

/// Further moves go on from moves that were made.
pub proof fn lemma_moves_then<F, M: Move<F>>(
    earlier: Seq<ControllerCall>,
    between: Seq<ControllerCall>,
    later: Seq<ControllerCall>,
    first: Seq<M>,
    second: Seq<M>,
    device: DeviceModel,
    failure: Option<F>,
)
    requires
        moves_went(earlier, between, first, device, None::<F>),
        moves_went(between, later, second, device, failure),
    ensures
        moves_went(earlier, later, first + second, device, failure),
{
    reveal(moves_went);
    let moves = first + second;
    let count = later.len() - earlier.len();
    assert forall|i: int| 0 <= i < earlier.len() implies #[trigger] later[i] == earlier[i] by {
        assert(between[i] == earlier[i]);
    }
    let made = if failure is Some {
        count - 1
    } else {
        count
    };
    assert forall|i: int| 0 <= i < made implies (#[trigger] moves[i]).tells(
        later[earlier.len() + i],
        device,
        Ok::<(), F>(()),
    ) by {
        if i < first.len() {
            assert(first[i].tells(between[earlier.len() + i], device, Ok::<(), F>(())));
            assert(later[earlier.len() + i] == between[earlier.len() + i]);
        } else {
            assert(second[i - first.len()].tells(
                later[between.len() + (i - first.len())],
                device,
                Ok::<(), F>(()),
            ));
        }
    }
    if failure is Some {
        assert(moves[count - 1] == second[count - 1 - first.len()]);
    }
}

/// A failure leaves out whatever was due after it.
pub proof fn lemma_moves_stop<F, M: Move<F>>(
    earlier: Seq<ControllerCall>,
    later: Seq<ControllerCall>,
    first: Seq<M>,
    second: Seq<M>,
    device: DeviceModel,
    failure: F,
)
    requires
        moves_went(earlier, later, first, device, Some(failure)),
    ensures
        moves_went(earlier, later, first + second, device, Some(failure)),
{
    reveal(moves_went);
    let moves = first + second;
    let count = later.len() - earlier.len();
    assert forall|i: int| 0 <= i < count - 1 implies (#[trigger] moves[i]).tells(
        later[earlier.len() + i],
        device,
        Ok::<(), F>(()),
    ) by {
        assert(first[i].tells(later[earlier.len() + i], device, Ok::<(), F>(())));
    }
    assert(moves[count - 1] == first[count - 1]);
}

} // verus!
