//! What the version-control tool's own words mean. The tool reports in
//! text meant for people; the rules that read it stand here and nowhere
//! else.

use vstd::prelude::*;
use crate::text::{chars_of, contains, contains_text};

verus! {

/// The operations whose failures are told apart.
#[derive(Clone, Copy, Debug, PartialEq, Eq, Structural)]
pub enum Operation {
    Create,
    Remove,
    Pull,
}

/// What a failure of the tool comes from, as far as the operation that ran
/// it can act on it.
#[derive(Clone, Copy, Debug, PartialEq, Eq, Structural)]
pub enum FailureKind {
    /// The branch to make is there already.
    BranchExists,
    /// The working copy to remove holds changed or untracked files.
    HasUncommittedChanges,
    /// The remote to pull from is not set up.
    RemoteMissing,
    /// Anything else.
    Other,
}

/// What a successful pull did.
#[derive(Clone, Copy, Debug, PartialEq, Eq, Structural)]
pub enum PullResult {
    /// Nothing: the working copy had it all.
    UpToDate,
    /// It brought changes.
    Updated,
}

/// The kind of the failure that the tool reported with `text` during
/// `operation`. Each operation knows one kind besides `Other`.
pub open spec fn failure_kind(operation: Operation, text: Seq<char>) -> FailureKind {
    match operation {
        Operation::Create => if contains_text(text, "already exists"@) {
            FailureKind::BranchExists
        } else {
            FailureKind::Other
        },
        Operation::Remove => if contains_text(text, "contains modified or untracked files"@) {
            FailureKind::HasUncommittedChanges
        } else {
            FailureKind::Other
        },
        Operation::Pull => if contains_text(text, "Could not find remote"@) || contains_text(
            text,
            "fatal: 'origin' does not appear to be a git repository"@,
        ) {
            FailureKind::RemoteMissing
        } else {
            FailureKind::Other
        },
    }
}

/// What a pull that succeeded with the output `stdout` did.
pub open spec fn pull_result(stdout: Seq<char>) -> PullResult {
    if contains_text(stdout, "Already up to date"@) || contains_text(
        stdout,
        "Already up-to-date"@,
    ) {
        PullResult::UpToDate
    } else {
        PullResult::Updated
    }
}

/// The kind of the failure that the tool reported with `text` during
/// `operation`.
pub fn classify_failure(operation: Operation, text: &str) -> (kind: FailureKind)
    ensures
        kind == failure_kind(operation, text@),
{
    let chars = chars_of(text);
    match operation {
        Operation::Create => {
            if contains(&chars, &chars_of("already exists")) {
                FailureKind::BranchExists
            } else {
                FailureKind::Other
            }
        },
        Operation::Remove => {
            if contains(&chars, &chars_of("contains modified or untracked files")) {
                FailureKind::HasUncommittedChanges
            } else {
                FailureKind::Other
            }
        },
        Operation::Pull => {
            if contains(&chars, &chars_of("Could not find remote")) || contains(
                &chars,
                &chars_of("fatal: 'origin' does not appear to be a git repository"),
            ) {
                FailureKind::RemoteMissing
            } else {
                FailureKind::Other
            }
        },
    }
}

/// What a pull that succeeded with the output `stdout` did.
pub fn classify_pull(stdout: &str) -> (result: PullResult)
    ensures
        result == pull_result(stdout@),
{
    let chars = chars_of(stdout);
    if contains(&chars, &chars_of("Already up to date")) || contains(
        &chars,
        &chars_of("Already up-to-date"),
    ) {
        PullResult::UpToDate
    } else {
        PullResult::Updated
    }
}

} // verus!
