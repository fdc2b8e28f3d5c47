//! What the library asks of the machine: clocks and identity-bound files.
//!
//! Paths are plain texts. A listed entry tells how it lies to the directory that was listed.

use vstd::prelude::*;
use vstd::string::*;
use crate::text::{ends_with_text, finishes_with, join, join3};
use crate::machine::{Calls, Machine, MachineCall};

verus! {

broadcast use vstd::string::group_string_axioms;

/// The longest span of time that a clock can tell, in nanoseconds.
pub const MAXIMUM_DURATION_NANOS: u128 = 18_446_744_073_709_551_615_999_999_999;

/// The moment a span after another, where a clock can tell it.
pub open spec fn moment_after(now: u128, span: u128) -> Option<u128> {
    if now + span <= MAXIMUM_DURATION_NANOS {
        Some((now + span) as u128)
    } else {
        None
    }
}

/// Adds a span to a moment.
pub fn deadline_after(now: u128, span: u128) -> (deadline: Option<u128>)
    ensures
        deadline == moment_after(now, span),
{
    if now <= MAXIMUM_DURATION_NANOS && span <= MAXIMUM_DURATION_NANOS - now {
        Some(now + span)
    } else {
        None
    }
}

/// The backing identity of a file or directory.
#[derive(Debug, Clone, Copy, PartialEq, Eq, Structural)]
pub struct FileIdentity {
    pub device: u64,
    pub inode: u64,
}

/// What the owner may do with a file.
#[derive(Debug, Clone, Copy, PartialEq, Eq, Structural)]
pub enum FilePermissions {
    ReadOnly,
    ReadWrite,
    Other,
}

impl FilePermissions {
    /// The text of the permissions' name.
    pub open spec fn label(self) -> Seq<char> {
        match self {
            FilePermissions::ReadOnly => "ReadOnly"@,
            FilePermissions::ReadWrite => "ReadWrite"@,
            FilePermissions::Other => "Other"@,
        }
    }

    pub(crate) fn name(self) -> (name: &'static str)
        ensures
            name@ == self.label(),
    {
        match self {
            FilePermissions::ReadOnly => "ReadOnly",
            FilePermissions::ReadWrite => "ReadWrite",
            FilePermissions::Other => "Other",
        }
    }
}

/// What sort of failure a platform operation met.
#[derive(Debug, Clone, Copy, PartialEq, Eq, Structural)]
pub enum PlatformErrorKind {
    NotFound,
    TimedOut,
    Other,
}

/// A failed platform operation.
#[derive(Debug, PartialEq, Eq)]
pub struct PlatformError {
    pub kind: PlatformErrorKind,
    pub detail: String,
}

impl Clone for PlatformError {
    fn clone(&self) -> (copy: PlatformError)
        ensures
            copy == *self,
    {
        PlatformError {
            kind: self.kind,
            detail: self.detail.clone(),
        }
    }
}

impl PlatformError {
    pub fn kind(&self) -> (kind: PlatformErrorKind)
        ensures
            kind == self.kind,
    {
        self.kind
    }

    /// The message shown to an operator.
    pub fn message(&self) -> (text: &str)
        ensures
            text@ == self.detail@,
    {
        self.detail.as_str()
    }
}

/// One entry of a listed directory.
#[derive(Debug, PartialEq, Eq)]
pub struct ListedEntry {
    /// The entry's path.
    pub path: String,
    /// Whether the entry lies directly in the listed directory.
    pub is_direct_child: bool,
    /// The entry's own name, where it is UTF-8.
    pub name: Option<String>,
}

/// A child's path.
pub open spec fn child_path(root: Seq<char>, child: Seq<char>) -> Seq<char> {
    if finishes_with(root, "/"@) {
        root + child
    } else {
        root + "/"@ + child
    }
}

/// Forms a child's path.
pub fn join_path(root: &str, child: &str) -> (path: String)
    ensures
        path@ == child_path(root@, child@),
{
    if ends_with_text(root, "/") {
        join(root, child)
    } else {
        join3(root, "/", child)
    }
}

/// A monotonic clock.
pub trait Clock: Machine {
    /// The time since the clock's start, in nanoseconds.
    fn monotonic_now(&mut self) -> (answer: u128)
        ensures
            final(self).history() == old(self).history().push(
                MachineCall::MonotonicNow { answer },
            ),
    ;

    /// Waits for a span, in nanoseconds.
    fn delay(&mut self, nanos: u128)
        ensures
            final(self).history() == old(self).history().push(
                MachineCall::Delay { nanos },
            ),
    ;
}

/// Plain file reads.
pub trait FileAccess: Machine {
    fn list(&mut self, root: &str) -> (answer: Result<Vec<ListedEntry>, PlatformError>)
        ensures
            final(self).history() == old(self).history().push(
                MachineCall::List { root: root@, answer },
            ),
    ;

    fn read(&mut self, path: &str) -> (answer: Result<String, PlatformError>)
        ensures
            final(self).history() == old(self).history().push(
                MachineCall::Read { path: path@, answer },
            ),
    ;
}

/// Reads that are bound to a directory's backing identity.
pub trait IdentityBoundReadAccess: FileAccess {
    fn identity(&mut self, path: &str) -> (answer: Result<FileIdentity, PlatformError>)
        ensures
            final(self).history() == old(self).history().push(
                MachineCall::Identity { path: path@, answer },
            ),
    ;

    fn permissions(&mut self, path: &str) -> (answer: Result<FilePermissions, PlatformError>)
        ensures
            final(self).history() == old(self).history().push(
                MachineCall::Permissions { path: path@, answer },
            ),
    ;

    fn list_bound(
        &mut self,
        root: &str,
        identity: FileIdentity,
    ) -> (answer: Result<Vec<ListedEntry>, PlatformError>)
        ensures
            final(self).history() == old(self).history().push(
                MachineCall::ListBound { root: root@, identity, answer },
            ),
    ;

    fn read_bound(
        &mut self,
        root: &str,
        identity: FileIdentity,
        child: &str,
    ) -> (answer: Result<String, PlatformError>)
        ensures
            final(self).history() == old(self).history().push(
                MachineCall::ReadBound { root: root@, identity, child: child@, answer },
            ),
    ;
}

/// Reads and writes that are bound to a directory and a child, and to a deadline in nanoseconds.
pub trait BoundedIdentityBoundFileAccess: Machine {
    fn list_before(
        &mut self,
        root: &str,
        deadline: u128,
    ) -> (answer: Result<Vec<ListedEntry>, PlatformError>)
        ensures
            final(self).history() == old(self).history().push(
                MachineCall::ListBefore { root: root@, deadline, answer },
            ),
    ;

    fn identity_before(
        &mut self,
        path: &str,
        deadline: u128,
    ) -> (answer: Result<FileIdentity, PlatformError>)
        ensures
            final(self).history() == old(self).history().push(
                MachineCall::IdentityBefore { path: path@, deadline, answer },
            ),
    ;

    fn list_bound_before(
        &mut self,
        root: &str,
        identity: FileIdentity,
        deadline: u128,
    ) -> (answer: Result<Vec<ListedEntry>, PlatformError>)
        ensures
            final(self).history() == old(self).history().push(
                MachineCall::ListBoundBefore { root: root@, identity, deadline, answer },
            ),
    ;

    fn permissions_bound_before(
        &mut self,
        root: &str,
        identity: FileIdentity,
        child: &str,
        child_identity: FileIdentity,
        deadline: u128,
    ) -> (answer: Result<FilePermissions, PlatformError>)
        ensures
            final(self).history() == old(self).history().push(
                MachineCall::PermissionsBoundBefore {
                    root: root@,
                    identity,
                    child: child@,
                    child_identity,
                    deadline,
                    answer,
                },
            ),
    ;

    fn read_bound_before(
        &mut self,
        root: &str,
        identity: FileIdentity,
        child: &str,
        child_identity: FileIdentity,
        deadline: u128,
    ) -> (answer: Result<String, PlatformError>)
        ensures
            final(self).history() == old(self).history().push(
                MachineCall::ReadBoundBefore {
                    root: root@,
                    identity,
                    child: child@,
                    child_identity,
                    deadline,
                    answer,
                },
            ),
    ;

    /// Writes one child only while every listed endpoint keeps its identity and every guard child
    /// still holds its expected contents.
    fn write_bound_if_before(
        &mut self,
        root: &str,
        identity: FileIdentity,
        endpoints: &Vec<(String, FileIdentity)>,
        guards: &Vec<(String, String)>,
        child: &str,
        contents: &str,
        deadline: u128,
    ) -> (answer: Result<(), PlatformError>)
        ensures
            final(self).history() == old(self).history().push(
                MachineCall::WriteBoundIfBefore {
                    root: root@,
                    identity,
                    endpoints: bound_names(endpoints@),
                    guards: guarded_names(guards@),
                    child: child@,
                    contents: contents@,
                    deadline,
                    answer,
                },
            ),
    ;
}

/// Whether the time was asked for next, and what came back.
pub open spec fn now_came(
    before: Calls,
    after: Calls,
    answer: u128,
) -> bool {
    after == before.push(MachineCall::MonotonicNow { answer })
}

/// Whether a directory was listed next, and what came back.
pub open spec fn listing_came(
    before: Calls,
    after: Calls,
    root: Seq<char>,
    answer: Result<Vec<ListedEntry>, PlatformError>,
) -> bool {
    after == before.push(MachineCall::List { root, answer })
}

/// Whether a file was read next, and what came back.
pub open spec fn reading_came(
    before: Calls,
    after: Calls,
    path: Seq<char>,
    answer: Result<String, PlatformError>,
) -> bool {
    after == before.push(MachineCall::Read { path, answer })
}

/// Whether an identity was asked for next, and what came back.
pub open spec fn identity_came(
    before: Calls,
    after: Calls,
    path: Seq<char>,
    answer: Result<FileIdentity, PlatformError>,
) -> bool {
    after == before.push(MachineCall::Identity { path, answer })
}

/// Whether permissions were asked for next, and what came back.
pub open spec fn permissions_came(
    before: Calls,
    after: Calls,
    path: Seq<char>,
    answer: Result<FilePermissions, PlatformError>,
) -> bool {
    after == before.push(MachineCall::Permissions { path, answer })
}

/// Whether a bound directory was listed next, and what came back.
pub open spec fn bound_listing_came(
    before: Calls,
    after: Calls,
    root: Seq<char>,
    identity: FileIdentity,
    answer: Result<Vec<ListedEntry>, PlatformError>,
) -> bool {
    after == before.push(MachineCall::ListBound { root, identity, answer })
}

/// Whether a child of a bound directory was read next, and what came back.
pub open spec fn contents_came(
    before: Calls,
    after: Calls,
    root: Seq<char>,
    identity: FileIdentity,
    child: Seq<char>,
    answer: Result<String, PlatformError>,
) -> bool {
    after == before.push(MachineCall::ReadBound { root, identity, child, answer })
}

/// Whether a directory was listed next by a deadline, and what came back.
pub open spec fn listing_came_before(
    before: Calls,
    after: Calls,
    root: Seq<char>,
    deadline: u128,
    answer: Result<Vec<ListedEntry>, PlatformError>,
) -> bool {
    after == before.push(MachineCall::ListBefore { root, deadline, answer })
}

/// Whether an identity was asked for next by a deadline, and what came back.
pub open spec fn identity_came_before(
    before: Calls,
    after: Calls,
    path: Seq<char>,
    deadline: u128,
    answer: Result<FileIdentity, PlatformError>,
) -> bool {
    after == before.push(MachineCall::IdentityBefore { path, deadline, answer })
}

/// Whether a bound directory was listed next by a deadline, and what came back.
pub open spec fn bound_listing_came_before(
    before: Calls,
    after: Calls,
    root: Seq<char>,
    identity: FileIdentity,
    deadline: u128,
    answer: Result<Vec<ListedEntry>, PlatformError>,
) -> bool {
    after == before.push(MachineCall::ListBoundBefore { root, identity, deadline, answer })
}

/// Whether a bound child's permissions were asked for next by a deadline, and what came back.
pub open spec fn permissions_came_before(
    before: Calls,
    after: Calls,
    root: Seq<char>,
    identity: FileIdentity,
    child: Seq<char>,
    child_identity: FileIdentity,
    deadline: u128,
    answer: Result<FilePermissions, PlatformError>,
) -> bool {
    after == before.push(
        MachineCall::PermissionsBoundBefore {
            root,
            identity,
            child,
            child_identity,
            deadline,
            answer,
        },
    )
}

/// Whether a bound child was read next by a deadline, and what came back.
pub open spec fn contents_came_before(
    before: Calls,
    after: Calls,
    root: Seq<char>,
    identity: FileIdentity,
    child: Seq<char>,
    child_identity: FileIdentity,
    deadline: u128,
    answer: Result<String, PlatformError>,
) -> bool {
    after == before.push(
        MachineCall::ReadBoundBefore {
            root,
            identity,
            child,
            child_identity,
            deadline,
            answer,
        },
    )
}

/// The names and identities of bound endpoints.
pub open spec fn bound_names(endpoints: Seq<(String, FileIdentity)>) -> Seq<
    (Seq<char>, FileIdentity),
> {
    endpoints.map_values(|endpoint: (String, FileIdentity)| (endpoint.0@, endpoint.1))
}

/// The names and contents of guards.
pub open spec fn guarded_names(guards: Seq<(String, String)>) -> Seq<(Seq<char>, Seq<char>)> {
    guards.map_values(|guard: (String, String)| (guard.0@, guard.1@))
}

} // verus!
