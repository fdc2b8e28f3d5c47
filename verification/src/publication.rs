//! When evidence may be published, and what a failed publication leaves behind.

use vstd::prelude::*;
use vstd::string::*;
use crate::evidence::{EvidenceRecord, EvidenceValidationError, RecordModel};
use crate::evidence_rules::{validation_error, verdict};
use crate::text::{join, join3};
use crate::thermal::FinalSlopes;

verus! {

broadcast use vstd::string::group_string_axioms;

/// Why evidence was not published, or not durably.
#[derive(Debug)]
pub enum EvidenceWriteError {
    Invalid(EvidenceValidationError),
    Serialize { detail: String },
    InvalidDestination,
    /// The destination did not become visible.
    Io { operation: &'static str, detail: String },
    /// The destination became visible before the operation failed.
    Published { operation: &'static str, detail: String },
}

/// The contents of a write error.
pub enum WriteErrorModel {
    Invalid(EvidenceValidationError),
    Serialize { detail: Seq<char> },
    InvalidDestination,
    Io { operation: Seq<char>, detail: Seq<char> },
    Published { operation: Seq<char>, detail: Seq<char> },
}

impl View for EvidenceWriteError {
    type V = WriteErrorModel;

    open spec fn view(&self) -> WriteErrorModel {
        match *self {
            EvidenceWriteError::Invalid(error) => WriteErrorModel::Invalid(error),
            EvidenceWriteError::Serialize { detail } => WriteErrorModel::Serialize {
                detail: detail@,
            },
            EvidenceWriteError::InvalidDestination => WriteErrorModel::InvalidDestination,
            EvidenceWriteError::Io { operation, detail } => WriteErrorModel::Io {
                operation: operation@,
                detail: detail@,
            },
            EvidenceWriteError::Published { operation, detail } => WriteErrorModel::Published {
                operation: operation@,
                detail: detail@,
            },
        }
    }
}

impl WriteErrorModel {
    /// The message shown to an operator.
    pub open spec fn text(self) -> Seq<char> {
        match self {
            WriteErrorModel::Invalid(error) => "invalid evidence: "@ + error.text(),
            WriteErrorModel::Serialize { detail } => "cannot serialize evidence: "@ + detail,
            WriteErrorModel::InvalidDestination =>
                "evidence destination must have a parent and file name"@,
            WriteErrorModel::Io { operation, detail } => "cannot "@ + operation + ": "@ + detail,
            WriteErrorModel::Published { operation, detail } =>
                "evidence was published, but cannot "@ + operation + ": "@ + detail,
        }
    }
}

impl EvidenceWriteError {
    /// The message shown to an operator.
    pub fn message(&self) -> (text: String)
        ensures
            text@ == self@.text(),
    {
        match self {
            EvidenceWriteError::Invalid(error) => join(
                "invalid evidence: ",
                error.message().as_str(),
            ),
            EvidenceWriteError::Serialize { detail } => join(
                "cannot serialize evidence: ",
                detail.as_str(),
            ),
            EvidenceWriteError::InvalidDestination =>
                "evidence destination must have a parent and file name".to_owned(),
            EvidenceWriteError::Io { operation, detail } => {
                let mut text = join3("cannot ", operation, ": ");
                text.append(detail.as_str());
                text
            },
            EvidenceWriteError::Published { operation, detail } => {
                let mut text = join3("evidence was published, but cannot ", operation, ": ");
                text.append(detail.as_str());
                text
            },
        }
    }

    /// Whether the immutable destination became visible before this error.
    pub fn destination_was_published(&self) -> (yes: bool)
        ensures
            yes == (self@ is Published),
    {
        match self {
            EvidenceWriteError::Published { .. } => true,
            _ => false,
        }
    }
}

/// A moment at which an observer may interrupt a publication.
#[derive(Debug, Clone, Copy, PartialEq, Eq, Structural)]
pub enum PublicationStage {
    TemporaryWritten,
    TemporarySynced,
    DestinationPublished,
    DirectorySynced,
}

/// What a publication does next. The record is built in an unnamed file, and the destination
/// appears only by [`PublicationStep::Link`], once the whole file is durable.
#[derive(Debug, Clone, Copy, PartialEq, Eq, Structural)]
pub enum PublicationStep {
    WriteTemporary,
    SyncTemporary,
    Link,
    SyncDirectory,
    Observe(PublicationStage),
    Done,
}

/// The first step of a publication.
pub const FIRST_PUBLICATION_STEP: PublicationStep = PublicationStep::WriteTemporary;

/// The step that follows a successful one.
pub open spec fn following(step: PublicationStep) -> PublicationStep {
    match step {
        PublicationStep::WriteTemporary => PublicationStep::Observe(
            PublicationStage::TemporaryWritten,
        ),
        PublicationStep::Observe(PublicationStage::TemporaryWritten) =>
            PublicationStep::SyncTemporary,
        PublicationStep::SyncTemporary => PublicationStep::Observe(
            PublicationStage::TemporarySynced,
        ),
        PublicationStep::Observe(PublicationStage::TemporarySynced) => PublicationStep::Link,
        PublicationStep::Link => PublicationStep::Observe(PublicationStage::DestinationPublished),
        PublicationStep::Observe(PublicationStage::DestinationPublished) =>
            PublicationStep::SyncDirectory,
        PublicationStep::SyncDirectory => PublicationStep::Observe(
            PublicationStage::DirectorySynced,
        ),
        PublicationStep::Observe(PublicationStage::DirectorySynced) => PublicationStep::Done,
        PublicationStep::Done => PublicationStep::Done,
    }
}

/// Whether the destination is visible when a step is performed.
pub open spec fn is_visible_at(step: PublicationStep) -> bool {
    match step {
        PublicationStep::WriteTemporary => false,
        PublicationStep::SyncTemporary => false,
        PublicationStep::Link => false,
        PublicationStep::SyncDirectory => true,
        PublicationStep::Observe(stage) => match stage {
            PublicationStage::TemporaryWritten => false,
            PublicationStage::TemporarySynced => false,
            PublicationStage::DestinationPublished => true,
            PublicationStage::DirectorySynced => true,
        },
        PublicationStep::Done => true,
    }
}

/// The name of a step in messages.
pub open spec fn step_text(step: PublicationStep) -> Seq<char> {
    match step {
        PublicationStep::WriteTemporary => "write temporary evidence"@,
        PublicationStep::SyncTemporary => "sync temporary evidence"@,
        PublicationStep::Link => "publish evidence"@,
        PublicationStep::SyncDirectory => "sync evidence directory"@,
        PublicationStep::Observe(stage) => if is_visible_at(step) {
            "complete publication checkpoint"@
        } else {
            "incomplete publication checkpoint"@
        },
        PublicationStep::Done => ""@,
    }
}

/// The error of a step that failed.
pub open spec fn step_error(step: PublicationStep, detail: Seq<char>) -> WriteErrorModel {
    if is_visible_at(step) {
        WriteErrorModel::Published { operation: step_text(step), detail }
    } else {
        WriteErrorModel::Io { operation: step_text(step), detail }
    }
}

/// Moves a publication on after a step, or ends it with the error that tells whether the
/// destination is visible.
pub fn next_publication_step(step: PublicationStep, outcome: Result<(), String>) -> (next: Result<
    PublicationStep,
    EvidenceWriteError,
>)
    ensures
        match outcome {
            Ok(()) => next matches Ok(s) && s == following(step),
            Err(detail) => next matches Err(error) && error@ == step_error(step, detail@),
        },
{
    let (following, visible, operation): (PublicationStep, bool, &'static str) = match step {
        PublicationStep::WriteTemporary => (
            PublicationStep::Observe(PublicationStage::TemporaryWritten),
            false,
            "write temporary evidence",
        ),
        PublicationStep::SyncTemporary => (
            PublicationStep::Observe(PublicationStage::TemporarySynced),
            false,
            "sync temporary evidence",
        ),
        PublicationStep::Link => (
            PublicationStep::Observe(PublicationStage::DestinationPublished),
            false,
            "publish evidence",
        ),
        PublicationStep::SyncDirectory => (
            PublicationStep::Observe(PublicationStage::DirectorySynced),
            true,
            "sync evidence directory",
        ),
        PublicationStep::Observe(stage) => match stage {
            PublicationStage::TemporaryWritten => (
                PublicationStep::SyncTemporary,
                false,
                "incomplete publication checkpoint",
            ),
            PublicationStage::TemporarySynced => (
                PublicationStep::Link,
                false,
                "incomplete publication checkpoint",
            ),
            PublicationStage::DestinationPublished => (
                PublicationStep::SyncDirectory,
                true,
                "complete publication checkpoint",
            ),
            PublicationStage::DirectorySynced => (
                PublicationStep::Done,
                true,
                "complete publication checkpoint",
            ),
        },
        PublicationStep::Done => (PublicationStep::Done, true, ""),
    };
    match outcome {
        Ok(()) => Ok(following),
        Err(detail) => if visible {
            Err(EvidenceWriteError::Published { operation, detail })
        } else {
            Err(EvidenceWriteError::Io { operation, detail })
        },
    }
}

/// The steps of a publication that meets no failure.
pub open spec fn step_at(index: nat) -> PublicationStep
    decreases index,
{
    if index == 0 {
        PublicationStep::WriteTemporary
    } else {
        following(step_at((index - 1) as nat))
    }
}

/// Every interruption leaves the destination unambiguous: a failure is told as published exactly
/// where the file was linked before, and the file is linked only once it is synced.
pub proof fn interruption_is_unambiguous(index: nat, detail: Seq<char>)
    ensures
        step_error(step_at(index), detail) is Published <==> exists|earlier: nat|
            earlier < index && #[trigger] step_at(earlier) == PublicationStep::Link,
        step_at(index) == PublicationStep::Link ==> exists|earlier: nat|
            earlier < index && #[trigger] step_at(earlier) == PublicationStep::SyncTemporary,
        index >= 8 ==> step_at(index) == PublicationStep::Done,
{
    reveal_with_fuel(step_at, 9);
    if index > 8 {
        lemma_done_stays(index);
    }
    if index > 4 {
        assert(step_at(4) == PublicationStep::Link);
    }
    if index > 2 {
        assert(step_at(2) == PublicationStep::SyncTemporary);
    }
    assert forall|earlier: nat| earlier < index && #[trigger] step_at(earlier)
        == PublicationStep::Link implies index > 4 by {
        if index <= 4 {
            assert(earlier == 0 || earlier == 1 || earlier == 2 || earlier == 3);
        }
    }
}

proof fn lemma_done_stays(index: nat)
    requires
        index >= 8,
    ensures
        step_at(index) == PublicationStep::Done,
    decreases index,
{
    reveal_with_fuel(step_at, 9);
    if index > 8 {
        lemma_done_stays((index - 1) as nat);
    }
}

/// What is known of one directory above a destination.
#[derive(Debug)]
pub struct AncestorFacts {
    pub is_symlink: bool,
    pub is_directory: bool,
    pub owner: u32,
    pub mode: u32,
}

/// What is known of a destination that must belong to one owner. Failed inspections carry their
/// message.
#[derive(Debug)]
pub struct OwnedDestination {
    pub effective_user: u32,
    pub has_parent: bool,
    pub has_file_name: bool,
    pub parent_is_absolute: bool,
    /// The parent and every directory above it, from the parent up.
    pub ancestors: Vec<Result<AncestorFacts, String>>,
    /// Opening the parent directory.
    pub opened: Result<(), String>,
    /// The owner and the mode of the opened directory.
    pub directory: Result<(u32, u32), String>,
    /// Whether something already stands at the destination.
    pub exists: Result<bool, String>,
}

/// Whether a mode lets the group or everybody write.
pub open spec fn is_shared(mode: u32) -> bool {
    mode & 0o022 != 0
}

/// What is wrong with one directory above a destination.
pub open spec fn ancestor_error(
    ancestor: Result<AncestorFacts, String>,
    required_owner: u32,
) -> Option<WriteErrorModel> {
    match ancestor {
        Err(detail) => Some(
            WriteErrorModel::Io {
                operation: "inspect qualification record ancestor"@,
                detail: detail@,
            },
        ),
        Ok(facts) => if facts.is_symlink || !facts.is_directory || !(facts.owner == 0 || facts.owner
            == required_owner) || is_shared(facts.mode) {
            Some(
                WriteErrorModel::Io {
                    operation: "validate qualification record ancestor ownership"@,
                    detail: "every ancestor must be a trusted-owner directory and not group/world writable"@,
                },
            )
        } else {
            None
        },
    }
}

/// The checks on the directories above a destination, by place.
pub open spec fn ancestor_checks(
    ancestors: Seq<Result<AncestorFacts, String>>,
    required_owner: u32,
) -> spec_fn(int) -> Option<WriteErrorModel> {
    |i: int| ancestor_error(ancestors[i], required_owner)
}

/// Why a destination cannot hold evidence that only one owner may write.
pub open spec fn destination_error(destination: OwnedDestination, required_owner: u32) -> Option<
    WriteErrorModel,
> {
    if destination.effective_user != required_owner {
        Some(
            WriteErrorModel::Io {
                operation: "validate qualification record ownership"@,
                detail: "effective user must own the qualification record"@,
            },
        )
    } else if !destination.has_parent || !destination.has_file_name
        || !destination.parent_is_absolute {
        Some(WriteErrorModel::InvalidDestination)
    } else {
        match crate::select::first_some(
            ancestor_checks(destination.ancestors@, required_owner),
            destination.ancestors@.len(),
        ) {
            Some(error) => Some(error),
            None => opened_error(destination, required_owner),
        }
    }
}

/// Why the opened parent directory cannot hold such evidence.
pub open spec fn opened_error(destination: OwnedDestination, required_owner: u32) -> Option<
    WriteErrorModel,
> {
    match (destination.opened, destination.directory) {
        (Err(detail), _) => Some(
            WriteErrorModel::Io { operation: "open evidence directory"@, detail: detail@ },
        ),
        (Ok(()), Err(detail)) => Some(
            WriteErrorModel::Io {
                operation: "inspect qualification record directory"@,
                detail: detail@,
            },
        ),
        (Ok(()), Ok((owner, mode))) => if owner != required_owner || is_shared(mode) {
            Some(
                WriteErrorModel::Io {
                    operation: "validate qualification record directory ownership"@,
                    detail: "directory must have the required owner and not be group/world writable"@,
                },
            )
        } else {
            match destination.exists {
                Ok(true) => Some(
                    WriteErrorModel::Io {
                        operation: "validate output destination"@,
                        detail: "destination already exists"@,
                    },
                ),
                Ok(false) => None,
                Err(detail) => Some(
                    WriteErrorModel::Io {
                        operation: "inspect output destination"@,
                        detail: detail@,
                    },
                ),
            }
        },
    }
}

/// Whether a result says what a model of its error says.
pub open spec fn write_verdict(
    result: Result<(), EvidenceWriteError>,
    error: Option<WriteErrorModel>,
) -> bool {
    match result {
        Ok(()) => error is None,
        Err(e) => error == Some(e@),
    }
}

fn io_error(operation: &'static str, detail: &str) -> (result: Result<(), EvidenceWriteError>)
    ensures
        result matches Err(error) && error@ == (WriteErrorModel::Io {
            operation: operation@,
            detail: detail@,
        }),
{
    Err(EvidenceWriteError::Io { operation, detail: detail.to_owned() })
}

fn judge_ancestor(ancestor: &Result<AncestorFacts, String>, required_owner: u32) -> (result: Result<
    (),
    EvidenceWriteError,
>)
    ensures
        write_verdict(result, ancestor_error(*ancestor, required_owner)),
{
    match ancestor {
        Err(detail) => io_error("inspect qualification record ancestor", detail.as_str()),
        Ok(facts) => if facts.is_symlink || !facts.is_directory || !(facts.owner == 0 || facts.owner
            == required_owner) || facts.mode & 0o022 != 0 {
            io_error(
                "validate qualification record ancestor ownership",
                "every ancestor must be a trusted-owner directory and not group/world writable",
            )
        } else {
            Ok(())
        },
    }
}

fn judge_ancestors(ancestors: &Vec<Result<AncestorFacts, String>>, required_owner: u32) -> (result:
    Result<(), EvidenceWriteError>)
    ensures
        write_verdict(
            result,
            crate::select::first_some(
                ancestor_checks(ancestors@, required_owner),
                ancestors@.len(),
            ),
        ),
{
    let ghost checks = ancestor_checks(ancestors@, required_owner);
    let mut i: usize = 0;
    while i < ancestors.len()
        invariant
            i <= ancestors.len(),
            checks == ancestor_checks(ancestors@, required_owner),
            crate::select::first_some(checks, i as nat) is None,
        decreases ancestors.len() - i,
    {
        match judge_ancestor(&ancestors[i], required_owner) {
            Ok(()) => {
                assert(checks(i as int) is None);
            },
            Err(error) => {
                proof {
                    assert(checks(i as int) == Some(error@));
                    crate::select::lemma_first_some_stays(
                        checks,
                        (i + 1) as nat,
                        ancestors@.len(),
                    );
                }
                return Err(error);
            },
        }
        i = i + 1;
    }
    Ok(())
}

/// Decides whether a destination can hold evidence that only one owner may write.
pub fn validate_owned_destination(
    destination: &OwnedDestination,
    required_owner: u32,
) -> (result: Result<
    (),
    EvidenceWriteError,
>)
    ensures
        write_verdict(result, destination_error(*destination, required_owner)),
{
    if destination.effective_user != required_owner {
        return io_error(
            "validate qualification record ownership",
            "effective user must own the qualification record",
        );
    }
    if !destination.has_parent || !destination.has_file_name || !destination.parent_is_absolute {
        return Err(EvidenceWriteError::InvalidDestination);
    }
    match judge_ancestors(&destination.ancestors, required_owner) {
        Ok(()) => {},
        Err(error) => {
            return Err(error);
        },
    }
    match &destination.opened {
        Ok(()) => {},
        Err(detail) => {
            return io_error("open evidence directory", detail.as_str());
        },
    }
    match &destination.directory {
        Ok((owner, mode)) => {
            if *owner != required_owner || *mode & 0o022 != 0 {
                return io_error(
                    "validate qualification record directory ownership",
                    "directory must have the required owner and not be group/world writable",
                );
            }
        },
        Err(detail) => {
            return io_error("inspect qualification record directory", detail.as_str());
        },
    }
    match &destination.exists {
        Ok(exists) => if *exists {
            io_error("validate output destination", "destination already exists")
        } else {
            Ok(())
        },
        Err(detail) => io_error("inspect output destination", detail.as_str()),
    }
}

/// Why a parsed record is not evidence of a schema version.
pub open spec fn version_error(record: RecordModel, slopes: FinalSlopes, version: u32) -> Option<
    EvidenceValidationError,
> {
    if record.schema_version != version {
        Some(EvidenceValidationError::UnsupportedSchemaVersion)
    } else {
        validation_error(record, slopes)
    }
}

/// Decides whether a parsed record is evidence of a schema version.
pub fn accept_evidence(
    record: &EvidenceRecord,
    slopes: FinalSlopes,
    version: u32,
) -> (result: Result<
    (),
    EvidenceValidationError,
>)
    ensures
        result == verdict(version_error(record@, slopes, version)),
{
    if record.schema_version != version {
        return Err(EvidenceValidationError::UnsupportedSchemaVersion);
    }
    record.validate(slopes)
}

} // verus!
