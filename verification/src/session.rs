//! What several operations share: reading the answer to the listing, and
//! small pieces of wording.

use vstd::prelude::*;
use vstd::string::StringExecFns;
use crate::error::{ErrorView, WorktreeError};
use crate::output::{on_stdout, pieces, say_out, Hue, Piece, PieceView, Tint};
use crate::paths::{main_path, RepositoryHandle};
use crate::porcelain::{parse, parsed, records, RecordView, WorktreeRecord};
use crate::protocol::{fail, failure, Action, ActionView, Event, EventView, Request, RequestView};
use crate::text::{chars_of, trim_space, trimmed};

verus! {

/// The ending of a noun of which there are `n`.
pub open spec fn plural(n: nat) -> Seq<char> {
    if n == 1 {
        ""@
    } else {
        "s"@
    }
}

/// The ending of a noun of which there are `n`.
pub fn plural_of(n: usize) -> (r: &'static str)
    ensures
        r@ == plural(n as nat),
{
    if n == 1 {
        ""
    } else {
        "s"
    }
}

/// What the answer `event` to the request for the listing gives: the
/// records, or why there are none.
pub open spec fn listing_result(main: Seq<char>, event: EventView) -> Result<
    Seq<RecordView>,
    ErrorView,
> {
    match event {
        EventView::Exited { success, stdout, stderr } => if success {
            Ok(parsed(main, stdout))
        } else {
            Err(
                ErrorView::SubprocessReportedFailure {
                    text: "Failed to list worktrees: "@ + stderr,
                },
            )
        },
        EventView::LaunchFailed { reason } => Err(
            ErrorView::SubprocessLaunchFailure {
                context: "Failed to execute git worktree list command"@,
            },
        ),
        _ => Err(ErrorView::UnexpectedEvent),
    }
}

/// What the answer `event` to the request for the listing gives.
pub fn read_listing(repo: &RepositoryHandle, event: &Event) -> (r: Result<
    Vec<WorktreeRecord>,
    WorktreeError,
>)
    ensures
        match listing_result(main_path(repo@.workdir), event@) {
            Ok(rs) => r is Ok && records(r->Ok_0@) == rs,
            Err(e) => r is Err && r->Err_0@ == e,
        },
{
    match event {
        Event::Exited { success, stdout, stderr } => {
            if *success {
                Ok(parse(repo, stdout.as_str()))
            } else {
                let mut text = String::from_str("Failed to list worktrees: ");
                text.append(stderr.as_str());
                Err(WorktreeError::SubprocessReportedFailure { text })
            }
        },
        Event::LaunchFailed { reason } => Err(
            WorktreeError::SubprocessLaunchFailure {
                context: String::from_str("Failed to execute git worktree list command"),
            },
        ),
        _ => Err(WorktreeError::UnexpectedEvent),
    }
}

/// Whether the answer `line` says yes: it is `y` or `Y`, with nothing but
/// white space around it.
pub open spec fn is_yes(line: Seq<char>) -> bool {
    trim_space(line) == seq!['y'] || trim_space(line) == seq!['Y']
}

/// Whether the answer `line` says yes.
pub fn says_yes(line: &str) -> (r: bool)
    ensures
        r == is_yes(line@),
{
    let t = trimmed(&chars_of(line));
    if t.len() == 1 {
        let c = t[0];
        assert(t@ =~= seq![c]);
        c == 'y' || c == 'Y'
    } else {
        false
    }
}

/// A plain piece for standard output.
pub open spec fn plain(text: Seq<char>) -> PieceView {
    on_stdout(Tint::Plain, text)
}

/// A piece in a colour for standard output.
pub open spec fn in_hue(hue: Hue, text: Seq<char>) -> PieceView {
    on_stdout(Tint::Colored(hue), text)
}

/// Adds a plain piece for standard output to `say`.
pub fn say_plain(say: &mut Vec<Piece>, text: &str)
    ensures
        pieces(final(say)@) == pieces(old(say)@).push(plain(text@)),
{
    say_out(say, Tint::Plain, String::from_str(text));
}

/// Adds a piece in a colour for standard output to `say`.
pub fn say_colored(say: &mut Vec<Piece>, hue: Hue, text: &str)
    ensures
        pieces(final(say)@) == pieces(old(say)@).push(in_hue(hue, text@)),
{
    say_out(say, Tint::Colored(hue), String::from_str(text));
}

/// How far an operation on one working copy has come.
#[derive(Clone, Copy, Debug, PartialEq, Eq, Structural)]
pub enum Stage {
    /// Nothing is done yet.
    Start,
    /// The working copy's path was asked about.
    Probing,
    /// The tool was asked to do the work.
    Running,
    /// The tool was asked again, in the other way, after it failed in the
    /// first.
    Retrying,
    /// The operation is over.
    Done,
}

/// How many steps an operation at `stage` can take at most.
pub open spec fn steps_left(stage: Stage) -> nat {
    match stage {
        Stage::Start => 4,
        Stage::Probing => 3,
        Stage::Running => 2,
        Stage::Retrying => 1,
        Stage::Done => 0,
    }
}

/// How far an operation that visits every working copy has come.
#[derive(Clone, Copy, Debug, PartialEq, Eq, Structural)]
pub enum WalkStage {
    /// Nothing is done yet.
    Start,
    /// The listing was asked for.
    Listing,
    /// The tool was asked to work on one working copy.
    Visiting,
    /// The operation is over.
    Done,
}

/// The place of a stage in the course of a walk.
pub open spec fn walk_order(stage: WalkStage) -> nat {
    match stage {
        WalkStage::Start => 0,
        WalkStage::Listing => 1,
        WalkStage::Visiting => 2,
        WalkStage::Done => 3,
    }
}

/// An operation that visits every working copy, on its way.
#[derive(Debug, PartialEq, Eq)]
pub struct Walk {
    pub stage: WalkStage,
    /// The records of the listing.
    pub records: Vec<WorktreeRecord>,
    /// Which of them is being visited.
    pub next: usize,
}

/// A `Walk` as character sequences.
pub struct WalkView {
    pub stage: WalkStage,
    pub records: Seq<RecordView>,
    pub next: usize,
}

impl View for Walk {
    type V = WalkView;

    open spec fn view(&self) -> WalkView {
        WalkView { stage: self.stage, records: records(self.records@), next: self.next }
    }
}

/// A walk that has not begun.
pub open spec fn walk_start() -> WalkView {
    WalkView { stage: WalkStage::Start, records: Seq::empty(), next: 0 }
}

impl Walk {
    /// A walk that has not begun.
    pub fn new() -> (w: Walk)
        ensures
            w@ == walk_start(),
    {
        let w = Walk { stage: WalkStage::Start, records: Vec::new(), next: 0 };
        assert(w@.records =~= Seq::<RecordView>::empty());
        w
    }
}

/// The operation ends with `error`.
pub open spec fn stopped(error: ErrorView) -> (Stage, ActionView) {
    (Stage::Done, failure(error))
}

/// The walk ends with `error`.
pub open spec fn walk_halted(walk: WalkView, error: ErrorView) -> (WalkView, ActionView) {
    (WalkView { stage: WalkStage::Done, ..walk }, failure(error))
}

/// An action that says nothing and makes `request`.
pub open spec fn silent(request: RequestView) -> ActionView {
    ActionView { say: Seq::empty(), request }
}

/// The operation ends with `error`.
pub fn stop(error: WorktreeError) -> (r: (Stage, Action))
    ensures
        r.0 == stopped(error@).0,
        r.1@ == stopped(error@).1,
{
    (Stage::Done, fail(error))
}

/// The walk ends with `error`.
pub fn halt_walk(walk: Walk, error: WorktreeError) -> (r: (Walk, Action))
    ensures
        r.0@ == walk_halted(walk@, error@).0,
        r.1@ == walk_halted(walk@, error@).1,
{
    let mut walk = walk;
    walk.stage = WalkStage::Done;
    (walk, fail(error))
}

/// An action that says nothing and makes `request`.
pub fn quietly(request: Request) -> (a: Action)
    ensures
        a@ == silent(request@),
{
    let say: Vec<Piece> = Vec::new();
    assert(pieces(say@) =~= Seq::<PieceView>::empty());
    Action { say, request }
}

} // verus!
