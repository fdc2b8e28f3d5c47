//! Where a record may be published and what an interruption leaves, told by owners and modes.

use vstd::prelude::*;
use crate::publication::{
    ancestor_checks, ancestor_error, destination_error, is_shared, is_visible_at, step_at,
    step_error, AncestorFacts, OwnedDestination,
};
use crate::select::first_some;

verus! {

/// A mode is shared exactly where the group's or everyone's bit for writing is set.
pub proof fn shared_modes_let_others_write(mode: u32)
    ensures
        is_shared(mode) <==> (mode / 2) % 2 == 1 || (mode / 16) % 2 == 1,
{
    assert(mode & 0o022 != 0 <==> (mode / 2) % 2 == 1 || (mode / 16) % 2 == 1) by (bit_vector);
}

/// Whether a directory on the way to a record can be trusted: a real directory of the system's or the
/// record's owner into which nobody else may write.
pub open spec fn can_be_trusted(facts: AncestorFacts, owner: u32) -> bool {
    &&& facts.is_directory
    &&& !facts.is_symlink
    &&& facts.owner == 0 || facts.owner == owner
    &&& (facts.mode / 2) % 2 == 0
    &&& (facts.mode / 16) % 2 == 0
}

pub(crate) proof fn lemma_none_found<T>(check: spec_fn(int) -> Option<T>, count: nat)
    ensures
        first_some(check, count) is None <==> forall|i: int|
            0 <= i < count ==> #[trigger] check(i) is None,
    decreases count,
{
    if count > 0 {
        lemma_none_found(check, (count - 1) as nat);
    }
}

/// A destination is accepted exactly where the user is the required owner, its path is absolute and names
/// a file, every directory on the way can be trusted, the last one opens, belongs to the owner and lets
/// nobody else write, and nothing stands there yet.
pub proof fn accepted_destinations_are_the_owners(destination: OwnedDestination, owner: u32)
    ensures
        destination_error(destination, owner) is None <==> {
            &&& destination.effective_user == owner
            &&& destination.has_parent && destination.has_file_name
                && destination.parent_is_absolute
            &&& forall|i: int|
                0 <= i < destination.ancestors@.len() ==> {
                    &&& #[trigger] destination.ancestors@[i] matches Ok(facts)
                    &&& can_be_trusted(facts, owner)
                }
            &&& destination.opened is Ok
            &&& destination.directory matches Ok(directory)
            &&& directory.0 == owner
            &&& (directory.1 / 2) % 2 == 0 && (directory.1 / 16) % 2 == 0
            &&& destination.exists matches Ok(exists)
            &&& !exists
        },
{
    let ancestors = destination.ancestors@;
    let check = ancestor_checks(ancestors, owner);
    lemma_none_found(check, ancestors.len());
    assert forall|i: int| 0 <= i < ancestors.len() implies {
        &&& #[trigger] check(i) == ancestor_error(ancestors[i], owner)
        &&& ancestor_error(ancestors[i], owner) is None <==> (ancestors[i] matches Ok(facts)
            && can_be_trusted(facts, owner))
    } by {
        if ancestors[i] is Ok {
            shared_modes_let_others_write(ancestors[i]->Ok_0.mode);
        }
    }
    if destination.directory is Ok {
        shared_modes_let_others_write(destination.directory->Ok_0.1);
    }
    if forall|i: int| 0 <= i < ancestors.len() ==> #[trigger] check(i) is None {
        assert forall|i: int| 0 <= i < ancestors.len() implies {
            &&& #[trigger] ancestors[i] matches Ok(facts)
            &&& can_be_trusted(facts, owner)
        } by {
            assert(check(i) is None);
        }
    }
    if forall|i: int|
        0 <= i < ancestors.len() ==> {
            &&& #[trigger] ancestors[i] matches Ok(facts)
            &&& can_be_trusted(facts, owner)
        } {
        assert forall|i: int| 0 <= i < ancestors.len() implies #[trigger] check(i) is None by {
            assert(ancestors[i] is Ok);
        }
    }
}

/// A record is written and synced before it is linked, and its directory synced after that. It is
/// visible from the link on and not before, and an error tells which of the two holds.
pub proof fn records_are_whole_when_they_appear(index: nat, detail: Seq<char>)
    ensures
        step_at(index) is WriteTemporary <==> index == 0,
        step_at(index) is SyncTemporary <==> index == 2,
        step_at(index) is Link <==> index == 4,
        step_at(index) is SyncDirectory <==> index == 6,
        step_at(index) is Done <==> index >= 8,
        is_visible_at(step_at(index)) <==> index >= 5,
        step_error(step_at(index), detail) is Published <==> index >= 5,
        step_error(step_at(index), detail) is Io <==> index < 5,
    decreases index,
{
    reveal_with_fuel(step_at, 10);
    if index > 9 {
        records_are_whole_when_they_appear((index - 1) as nat, detail);
    }
}

} // verus!
