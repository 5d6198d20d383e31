//! The ways in which an operation can fail, and the line shown for each.

use vstd::prelude::*;
use vstd::string::StringExecFns;

verus! {

/// Why an operation stopped without doing what was asked.
#[derive(Debug, PartialEq, Eq)]
pub enum WorktreeError {
    /// No repository holds the directory the process runs in.
    NotInRepository,
    /// The repository has no working directory of its own.
    NoWorkingDirectory,
    /// The working directory's path has no last segment to take a name from.
    NoRepositoryName,
    /// A path or a name is not valid UTF-8.
    EncodingIssue,
    /// A name for a working copy was empty.
    EmptyName,
    /// No working copy of that name is where it would be; `place` is the
    /// path looked at, where the message names it.
    NotFound { name: String, place: Option<String> },
    /// Something already is where the working copy would be made.
    AlreadyExists { name: String, path: String },
    /// The version-control tool could not be started; `context` says for
    /// what.
    SubprocessLaunchFailure { context: String },
    /// The version-control tool ran and reported failure; `text` is the
    /// whole line for the user, the tool's own words at its end.
    SubprocessReportedFailure { text: String },
    /// The tool reported that the remote to pull from is not set up.
    RemoteMissing,
    /// An event was handed to an operation that was not waiting for it.
    UnexpectedEvent,
}

/// A `WorktreeError` with its texts as character sequences.
pub enum ErrorView {
    NotInRepository,
    NoWorkingDirectory,
    NoRepositoryName,
    EncodingIssue,
    EmptyName,
    NotFound { name: Seq<char>, place: Option<Seq<char>> },
    AlreadyExists { name: Seq<char>, path: Seq<char> },
    SubprocessLaunchFailure { context: Seq<char> },
    SubprocessReportedFailure { text: Seq<char> },
    RemoteMissing,
    UnexpectedEvent,
}

impl View for WorktreeError {
    type V = ErrorView;

    open spec fn view(&self) -> ErrorView {
        match self {
            WorktreeError::NotInRepository => ErrorView::NotInRepository,
            WorktreeError::NoWorkingDirectory => ErrorView::NoWorkingDirectory,
            WorktreeError::NoRepositoryName => ErrorView::NoRepositoryName,
            WorktreeError::EncodingIssue => ErrorView::EncodingIssue,
            WorktreeError::EmptyName => ErrorView::EmptyName,
            WorktreeError::NotFound { name, place } => ErrorView::NotFound {
                name: name@,
                place: match place {
                    Some(p) => Some(p@),
                    None => None,
                },
            },
            WorktreeError::AlreadyExists { name, path } => ErrorView::AlreadyExists {
                name: name@,
                path: path@,
            },
            WorktreeError::SubprocessLaunchFailure { context } => ErrorView::SubprocessLaunchFailure {
                context: context@,
            },
            WorktreeError::SubprocessReportedFailure { text } => ErrorView::SubprocessReportedFailure {
                text: text@,
            },
            WorktreeError::RemoteMissing => ErrorView::RemoteMissing,
            WorktreeError::UnexpectedEvent => ErrorView::UnexpectedEvent,
        }
    }
}

/// `text` between double quotes.
pub open spec fn quoted(text: Seq<char>) -> Seq<char> {
    "\""@ + text + "\""@
}

/// The line that tells the user of `e`.
pub open spec fn message_of(e: ErrorView) -> Seq<char> {
    match e {
        ErrorView::NotInRepository =>
            "Not in a git repository. Please run this command inside a git repository."@,
        ErrorView::NoWorkingDirectory => "Failed to get repository working directory"@,
        ErrorView::NoRepositoryName => "Failed to get repository directory name"@,
        ErrorView::EncodingIssue => "Repository name contains invalid UTF-8"@,
        ErrorView::EmptyName => "name must be non-empty"@,
        ErrorView::NotFound { name, place } => match place {
            Some(p) => "Worktree '"@ + name + "' not found at "@ + quoted(p),
            None => "Worktree '"@ + name + "' not found"@,
        },
        ErrorView::AlreadyExists { name, path } => "Worktree '"@ + name + "' already exists at "@
            + quoted(path),
        ErrorView::SubprocessLaunchFailure { context } => context,
        ErrorView::SubprocessReportedFailure { text } => text,
        ErrorView::RemoteMissing => "No remote 'origin' configured"@,
        ErrorView::UnexpectedEvent => "Unexpected event for this operation"@,
    }
}

/// `text` between double quotes.
pub fn quote(text: &str) -> (r: String)
    ensures
        r@ == quoted(text@),
{
    let mut r = String::from_str("\"");
    r.append(text);
    r.append("\"");
    r
}

impl WorktreeError {
    /// The line that tells the user of this error.
    pub fn message(&self) -> (r: String)
        ensures
            r@ == message_of(self@),
    {
        match self {
            WorktreeError::NotInRepository => String::from_str(
                "Not in a git repository. Please run this command inside a git repository.",
            ),
            WorktreeError::NoWorkingDirectory => String::from_str(
                "Failed to get repository working directory",
            ),
            WorktreeError::NoRepositoryName => String::from_str(
                "Failed to get repository directory name",
            ),
            WorktreeError::EncodingIssue => String::from_str(
                "Repository name contains invalid UTF-8",
            ),
            WorktreeError::EmptyName => String::from_str("name must be non-empty"),
            WorktreeError::NotFound { name, place } => {
                let mut r = String::from_str("Worktree '");
                r.append(name.as_str());
                match place {
                    Some(p) => {
                        r.append("' not found at ");
                        let q = quote(p.as_str());
                        r.append(q.as_str());
                    },
                    None => {
                        r.append("' not found");
                    },
                }
                r
            },
            WorktreeError::AlreadyExists { name, path } => {
                let mut r = String::from_str("Worktree '");
                r.append(name.as_str());
                r.append("' already exists at ");
                let q = quote(path.as_str());
                r.append(q.as_str());
                r
            },
            WorktreeError::SubprocessLaunchFailure { context } => context.clone(),
            WorktreeError::SubprocessReportedFailure { text } => text.clone(),
            WorktreeError::RemoteMissing => String::from_str("No remote 'origin' configured"),
            WorktreeError::UnexpectedEvent => String::from_str(
                "Unexpected event for this operation",
            ),
        }
    }
}

} // verus!
