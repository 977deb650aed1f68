//! The failures that the library reports.
use vstd::prelude::*;

verus! {

/// A failed run of the firewall tool: its exit code and what it wrote to
/// standard error.
#[derive(Debug, Clone, PartialEq, Eq)]
pub struct IptablesError {
    /// The exit code, or -1 where the system supplied none.
    pub code: i32,
    /// Standard error, decoded leniently.
    pub msg: String,
}

/// Everything that can go wrong.
#[derive(Debug, Clone, PartialEq, Eq)]
pub enum Failure {
    /// The tool's process could not be started.
    SpawnFailure,
    /// The lock that serialises invocations could not be taken.
    LockTimeout,
    /// The tool ran and reported failure.
    NonZeroExit(IptablesError),
    /// The tool's version report holds no `v<major>.<minor>.<patch>`.
    InvalidVersionFormat,
    /// The host is not a Linux host.
    UnsupportedPlatform,
    /// The rule to append is already in the chain.
    DuplicateRule,
    /// The pattern matcher refused one of the library's patterns.
    InvalidPattern,
}

/// A failure as a mathematical value.
pub enum FailureView {
    SpawnFailure,
    LockTimeout,
    NonZeroExit { code: int, msg: Seq<char> },
    InvalidVersionFormat,
    UnsupportedPlatform,
    DuplicateRule,
    InvalidPattern,
}

impl View for Failure {
    type V = FailureView;

    open spec fn view(&self) -> FailureView {
        match *self {
            Failure::SpawnFailure => FailureView::SpawnFailure,
            Failure::LockTimeout => FailureView::LockTimeout,
            Failure::NonZeroExit(e) => FailureView::NonZeroExit { code: e.code as int, msg: e.msg@ },
            Failure::InvalidVersionFormat => FailureView::InvalidVersionFormat,
            Failure::UnsupportedPlatform => FailureView::UnsupportedPlatform,
            Failure::DuplicateRule => FailureView::DuplicateRule,
            Failure::InvalidPattern => FailureView::InvalidPattern,
        }
    }
}

} // verus!
