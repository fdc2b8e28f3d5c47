//! What was asked of the machine, in order, with what came back.

use vstd::prelude::*;
use crate::acer_hwmon::DeviceModel;
use crate::arming::FirmwareAutoSafingOutcome;
use crate::platform::{FileIdentity, FilePermissions, ListedEntry, PlatformError};

verus! {

/// A call on the machine.
#[allow(inconsistent_fields)]
pub enum MachineCall {
    MonotonicNow { answer: u128 },
    Delay { nanos: u128 },
    List { root: Seq<char>, answer: Result<Vec<ListedEntry>, PlatformError> },
    Read { path: Seq<char>, answer: Result<String, PlatformError> },
    Identity { path: Seq<char>, answer: Result<FileIdentity, PlatformError> },
    Permissions { path: Seq<char>, answer: Result<FilePermissions, PlatformError> },
    ListBound {
        root: Seq<char>,
        identity: FileIdentity,
        answer: Result<Vec<ListedEntry>, PlatformError>,
    },
    ReadBound {
        root: Seq<char>,
        identity: FileIdentity,
        child: Seq<char>,
        answer: Result<String, PlatformError>,
    },
    ListBefore {
        root: Seq<char>,
        deadline: u128,
        answer: Result<Vec<ListedEntry>, PlatformError>,
    },
    IdentityBefore {
        path: Seq<char>,
        deadline: u128,
        answer: Result<FileIdentity, PlatformError>,
    },
    ListBoundBefore {
        root: Seq<char>,
        identity: FileIdentity,
        deadline: u128,
        answer: Result<Vec<ListedEntry>, PlatformError>,
    },
    PermissionsBoundBefore {
        root: Seq<char>,
        identity: FileIdentity,
        child: Seq<char>,
        child_identity: FileIdentity,
        deadline: u128,
        answer: Result<FilePermissions, PlatformError>,
    },
    ReadBoundBefore {
        root: Seq<char>,
        identity: FileIdentity,
        child: Seq<char>,
        child_identity: FileIdentity,
        deadline: u128,
        answer: Result<String, PlatformError>,
    },
    WriteBoundIfBefore {
        root: Seq<char>,
        identity: FileIdentity,
        endpoints: Seq<(Seq<char>, FileIdentity)>,
        guards: Seq<(Seq<char>, Seq<char>)>,
        child: Seq<char>,
        contents: Seq<char>,
        deadline: u128,
        answer: Result<(), PlatformError>,
    },
    OwnershipId { answer: u64 },
    SamplingEpoch { answer: u64 },
    BeginCustomTransition { answer: u64 },
    CustomEpochIsCurrent { ownership_id: u64, custom_epoch: u64, answer: bool },
    RestoreOrContainFirmwareAuto { device: DeviceModel, answer: FirmwareAutoSafingOutcome },
}

/// What was asked of the machine so far, in order.
pub type Calls = Seq<MachineCall>;

/// Something that is reached by calls, and keeps them in mind.
pub trait Machine {
    /// What was asked so far, with what came back.
    spec fn history(&self) -> Calls;
}

/// Whether calls go on from earlier ones.
pub open spec fn grows(earlier: Calls, later: Calls) -> bool {
    &&& earlier.len() <= later.len()
    &&& forall|i: int| 0 <= i < earlier.len() ==> #[trigger] later[i] == earlier[i]
}

/// Calls go on from themselves.
pub broadcast proof fn lemma_grows_by_nothing(calls: Calls)
    ensures
        #[trigger] grows(calls, calls),
{
}

/// One more call goes on from the ones before.
pub broadcast proof fn lemma_grows_by_one(calls: Calls, call: MachineCall)
    ensures
        #[trigger] grows(calls, calls.push(call)),
{
}

/// What goes on from calls that go on goes on.
pub broadcast proof fn lemma_grows_on(first: Calls, second: Calls, third: Calls)
    requires
        #[trigger] grows(first, second),
        #[trigger] grows(second, third),
    ensures
        grows(first, third),
{
    assert forall|i: int| 0 <= i < first.len() implies #[trigger] third[i] == first[i] by {
        assert(second[i] == first[i]);
    }
}

pub broadcast group group_grows {
    lemma_grows_by_nothing,
    lemma_grows_by_one,
    lemma_grows_on,
}

} // verus!
