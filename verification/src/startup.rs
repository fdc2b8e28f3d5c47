//! The status of a build that nothing qualified yet.

use vstd::prelude::*;
use vstd::string::*;

verus! {

broadcast use vstd::string::group_string_axioms;

/// Source-build status before model qualification and configuration exist.
#[derive(Debug, Clone, Copy, PartialEq, Eq, Structural)]
pub enum StartupStatus {
    /// The source tree must not attempt Custom fan control.
    UnqualifiedNotConfigured,
}

impl StartupStatus {
    /// The message shown to an operator.
    pub fn message(self) -> (text: &'static str)
        ensures
            text@ == "unqualified/not configured"@,
    {
        match self {
            StartupStatus::UnqualifiedNotConfigured => "unqualified/not configured",
        }
    }
}

} // verus!
