//! How an operation talks to the program that runs it. The operation never
//! touches the disk or the version-control tool itself: each step returns
//! what it has to say and one request, and the next step takes the event
//! that answers the request.

use vstd::prelude::*;
use vstd::string::StringExecFns;
use crate::error::{ErrorView, WorktreeError};
use crate::output::{pieces, Piece, PieceView};
use crate::text::texts;

verus! {

/// What happened since the last step.
#[derive(Debug, PartialEq, Eq)]
pub enum Event {
    /// Nothing yet: the operation starts.
    Begin,
    /// The path was looked for on disk.
    Probed { exists: bool },
    /// The tool ran to its end.
    Exited { success: bool, stdout: String, stderr: String },
    /// The tool could not be started.
    LaunchFailed { reason: String },
    /// The user answered with this line.
    Answered { line: String },
}

/// An `Event` with its texts as character sequences.
pub enum EventView {
    Begin,
    Probed { exists: bool },
    Exited { success: bool, stdout: Seq<char>, stderr: Seq<char> },
    LaunchFailed { reason: Seq<char> },
    Answered { line: Seq<char> },
}

impl View for Event {
    type V = EventView;

    open spec fn view(&self) -> EventView {
        match self {
            Event::Begin => EventView::Begin,
            Event::Probed { exists } => EventView::Probed { exists: *exists },
            Event::Exited { success, stdout, stderr } => EventView::Exited {
                success: *success,
                stdout: stdout@,
                stderr: stderr@,
            },
            Event::LaunchFailed { reason } => EventView::LaunchFailed { reason: reason@ },
            Event::Answered { line } => EventView::Answered { line: line@ },
        }
    }
}

/// What the program is to do before the next step.
#[derive(Debug, PartialEq, Eq)]
pub enum Request {
    /// Look whether anything is at `path`; answer with `Event::Probed`.
    Probe { path: String },
    /// Run the tool in the directory `dir` with the arguments `args`;
    /// answer with `Event::Exited` or `Event::LaunchFailed`.
    Run { dir: String, args: Vec<String> },
    /// Read a line from the user; answer with `Event::Answered`.
    Ask,
    /// Nothing more: the operation is done.
    Finish,
    /// Nothing more: the operation failed.
    Fail { error: WorktreeError },
}

/// A `Request` with its texts as character sequences.
pub enum RequestView {
    Probe { path: Seq<char> },
    Run { dir: Seq<char>, args: Seq<Seq<char>> },
    Ask,
    Finish,
    Fail { error: ErrorView },
}

impl View for Request {
    type V = RequestView;

    open spec fn view(&self) -> RequestView {
        match self {
            Request::Probe { path } => RequestView::Probe { path: path@ },
            Request::Run { dir, args } => RequestView::Run { dir: dir@, args: texts(args@) },
            Request::Ask => RequestView::Ask,
            Request::Finish => RequestView::Finish,
            Request::Fail { error } => RequestView::Fail { error: error@ },
        }
    }
}

/// One step's result: what to tell the user now, and what to do next.
#[derive(Debug, PartialEq, Eq)]
pub struct Action {
    pub say: Vec<Piece>,
    pub request: Request,
}

/// An `Action` with its texts as character sequences.
pub struct ActionView {
    pub say: Seq<PieceView>,
    pub request: RequestView,
}

impl View for Action {
    type V = ActionView;

    open spec fn view(&self) -> ActionView {
        ActionView { say: pieces(self.say@), request: self.request@ }
    }
}

/// Whether the request ends the operation.
pub open spec fn is_final(request: RequestView) -> bool {
    request is Finish || request is Fail
}

/// Whether the request has the tool change anything on disk: it makes or
/// removes a working copy, or pulls.
pub open spec fn is_mutation(request: RequestView) -> bool {
    request matches RequestView::Run { args, .. } && args.len() > 0 && (args[0] == "pull"@ || (
    args.len() > 1 && args[0] == "worktree"@ && (args[1] == "add"@ || args[1] == "remove"@)))
}

/// An action that says nothing and fails.
pub open spec fn failure(error: ErrorView) -> ActionView {
    ActionView { say: Seq::empty(), request: RequestView::Fail { error } }
}

/// The request to run the tool in `dir`.
pub open spec fn run(dir: Seq<char>, args: Seq<Seq<char>>) -> RequestView {
    RequestView::Run { dir, args }
}

/// The arguments that list the working copies.
pub open spec fn list_args() -> Seq<Seq<char>> {
    seq!["worktree"@, "list"@, "--porcelain"@]
}

/// The arguments that make a working copy at `path` on a new branch
/// `name`.
pub open spec fn add_new_args(name: Seq<char>, path: Seq<char>) -> Seq<Seq<char>> {
    seq!["worktree"@, "add"@, "-b"@, name, path]
}

/// The arguments that make a working copy at `path` on the branch `name`
/// that exists.
pub open spec fn add_existing_args(name: Seq<char>, path: Seq<char>) -> Seq<Seq<char>> {
    seq!["worktree"@, "add"@, path, name]
}

/// The arguments that remove the working copy at `path`; with `force`,
/// whatever it holds.
pub open spec fn remove_args(path: Seq<char>, force: bool) -> Seq<Seq<char>> {
    if force {
        seq!["worktree"@, "remove"@, "--force"@, path]
    } else {
        seq!["worktree"@, "remove"@, path]
    }
}

/// The arguments that list the branches merged into the trunk.
pub open spec fn merged_args() -> Seq<Seq<char>> {
    seq!["branch"@, "--merged"@, "main"@]
}

/// The arguments that pull the trunk from the remote.
pub open spec fn pull_args() -> Seq<Seq<char>> {
    seq!["pull"@, "origin"@, "main"@]
}

/// The arguments that list what is changed in a working copy.
pub open spec fn status_args() -> Seq<Seq<char>> {
    seq!["status"@, "--porcelain"@]
}

/// Adds `arg` to `args`.
fn push_arg(args: &mut Vec<String>, arg: &str)
    ensures
        texts(final(args)@) == texts(old(args)@).push(arg@),
{
    args.push(String::from_str(arg));
}

/// The arguments that list the working copies.
pub fn list_command() -> (args: Vec<String>)
    ensures
        texts(args@) == list_args(),
{
    let mut args: Vec<String> = Vec::new();
    push_arg(&mut args, "worktree");
    push_arg(&mut args, "list");
    push_arg(&mut args, "--porcelain");
    args
}

/// The arguments that make a working copy at `path` on a new branch
/// `name`.
pub fn add_new_command(name: &str, path: &str) -> (args: Vec<String>)
    ensures
        texts(args@) == add_new_args(name@, path@),
{
    let mut args: Vec<String> = Vec::new();
    push_arg(&mut args, "worktree");
    push_arg(&mut args, "add");
    push_arg(&mut args, "-b");
    push_arg(&mut args, name);
    push_arg(&mut args, path);
    args
}

/// The arguments that make a working copy at `path` on the branch `name`
/// that exists.
pub fn add_existing_command(name: &str, path: &str) -> (args: Vec<String>)
    ensures
        texts(args@) == add_existing_args(name@, path@),
{
    let mut args: Vec<String> = Vec::new();
    push_arg(&mut args, "worktree");
    push_arg(&mut args, "add");
    push_arg(&mut args, path);
    push_arg(&mut args, name);
    args
}

/// The arguments that remove the working copy at `path`.
pub fn remove_command(path: &str, force: bool) -> (args: Vec<String>)
    ensures
        texts(args@) == remove_args(path@, force),
{
    let mut args: Vec<String> = Vec::new();
    push_arg(&mut args, "worktree");
    push_arg(&mut args, "remove");
    if force {
        push_arg(&mut args, "--force");
    }
    push_arg(&mut args, path);
    args
}

/// The arguments that list the branches merged into the trunk.
pub fn merged_command() -> (args: Vec<String>)
    ensures
        texts(args@) == merged_args(),
{
    let mut args: Vec<String> = Vec::new();
    push_arg(&mut args, "branch");
    push_arg(&mut args, "--merged");
    push_arg(&mut args, "main");
    args
}

/// The arguments that pull the trunk from the remote.
pub fn pull_command() -> (args: Vec<String>)
    ensures
        texts(args@) == pull_args(),
{
    let mut args: Vec<String> = Vec::new();
    push_arg(&mut args, "pull");
    push_arg(&mut args, "origin");
    push_arg(&mut args, "main");
    args
}

/// The arguments that list what is changed in a working copy.
pub fn status_command() -> (args: Vec<String>)
    ensures
        texts(args@) == status_args(),
{
    let mut args: Vec<String> = Vec::new();
    push_arg(&mut args, "status");
    push_arg(&mut args, "--porcelain");
    args
}

/// An action that says nothing and fails with `error`.
pub fn fail(error: WorktreeError) -> (a: Action)
    ensures
        a@ == failure(error@),
{
    let a = Action { say: Vec::new(), request: Request::Fail { error } };
    assert(a@.say =~= Seq::<PieceView>::empty());
    a
}

} // verus!
