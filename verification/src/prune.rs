//! Pruning: removing the working copies whose branches are merged into the
//! trunk. The candidates are found and shown, the user is asked unless told
//! otherwise, and only then is anything removed, one working copy after the
//! other.

use vstd::prelude::*;
use vstd::string::StringExecFns;
use crate::error::{ErrorView, WorktreeError};
use crate::failure::{classify_failure, failure_kind, FailureKind, Operation};
use crate::merge::{
    branch_label, branch_label_of, candidates, classified, classify, lemma_targets_are_merged,
    merged_only, prune_targets, CandidateView, PruneCandidate,
};
use crate::output::{on_stderr, pieces, say_err, say_out, Hue, Piece, PieceView, Tint};
use crate::paths::{main_path, RepositoryHandle};
use crate::porcelain::{records, RecordView, WorktreeRecord};
use crate::protocol::{
    fail, failure, is_final, is_mutation, list_args, list_command, merged_args, merged_command,
    remove_args, remove_command, run, Action, ActionView, Event, EventView, Request, RequestView,
};
use crate::session::{
    in_hue, is_yes, listing_result, plain, plural, plural_of, read_listing, say_colored,
    say_plain, says_yes,
};
use crate::text::{chars_of, decimal, decimal_text, text_of, trim_space, trimmed};

verus! {

/// How far a prune has come.
#[derive(Clone, Copy, Debug, PartialEq, Eq, Structural)]
pub enum PruneStage {
    /// Nothing is done yet.
    Start,
    /// The listing was asked for.
    Listing,
    /// The list of merged branches was asked for.
    Checking,
    /// The user was asked whether to go on.
    Confirming,
    /// The removal of a working copy was asked for.
    Removing,
    /// The removal of the same working copy was asked for again, with
    /// force.
    Forcing,
    /// The prune is over.
    Done,
}

/// A prune on its way.
#[derive(Debug, PartialEq, Eq)]
pub struct PruneState {
    pub stage: PruneStage,
    /// The records of the listing, while the merged branches are asked for.
    pub records: Vec<WorktreeRecord>,
    /// The working copies to remove.
    pub targets: Vec<PruneCandidate>,
    /// Which of them is being removed.
    pub next: usize,
    /// How many were removed.
    pub removed: usize,
}

/// A `PruneState` as character sequences.
pub struct PruneView {
    pub stage: PruneStage,
    pub records: Seq<RecordView>,
    pub targets: Seq<CandidateView>,
    pub next: usize,
    pub removed: usize,
}

impl View for PruneState {
    type V = PruneView;

    open spec fn view(&self) -> PruneView {
        PruneView {
            stage: self.stage,
            records: records(self.records@),
            targets: candidates(self.targets@),
            next: self.next,
            removed: self.removed,
        }
    }
}

impl PruneState {
    /// A prune that has not begun.
    pub fn new() -> (s: PruneState)
        ensures
            s@ == prune_start(),
    {
        let s = PruneState {
            stage: PruneStage::Start,
            records: Vec::new(),
            targets: Vec::new(),
            next: 0,
            removed: 0,
        };
        assert(s@.records =~= Seq::<RecordView>::empty());
        assert(s@.targets =~= Seq::<CandidateView>::empty());
        s
    }
}

/// A prune that has not begun.
pub open spec fn prune_start() -> PruneView {
    PruneView {
        stage: PruneStage::Start,
        records: Seq::empty(),
        targets: Seq::empty(),
        next: 0,
        removed: 0,
    }
}

/// Whether the list of merged branches is needed: some record other than
/// the primary working copy is on a branch.
pub open spec fn wants_merge_check(all: Seq<RecordView>) -> bool {
    exists|i: int| 0 <= i < all.len() && !all[i].is_main && all[i].branch is Some
}

/// The line that says there is nothing to prune.
pub open spec fn nothing_said() -> Seq<PieceView> {
    seq![plain("No worktrees to prune\n"@)]
}

/// The line above the working copies to prune.
pub open spec fn heading(dry_run: bool, n: nat) -> PieceView {
    plain(
        (if dry_run {
            "Would prune "@
        } else {
            "Found "@
        }) + decimal(n) + " merged worktree"@ + plural(n) + (if dry_run {
            ":\n"@
        } else {
            " to prune:\n"@
        }),
    )
}

/// The line for one working copy to prune.
pub open spec fn target_line(target: CandidateView) -> Seq<PieceView> {
    seq![
        plain("  "@),
        in_hue(Hue::Yellow, target.name),
        plain(" ["@),
        in_hue(Hue::Cyan, branch_label(target.record.branch)),
        plain("] at "@ + target.record.path + "\n"@),
    ]
}

/// The lines for the first `n` working copies to prune.
pub open spec fn target_lines(targets: Seq<CandidateView>, n: int) -> Seq<PieceView>
    decreases n,
{
    if n <= 0 {
        Seq::empty()
    } else {
        target_lines(targets, n - 1) + target_line(targets[n - 1])
    }
}

/// The working copies to prune, under their heading.
pub open spec fn announcement(dry_run: bool, targets: Seq<CandidateView>) -> Seq<PieceView> {
    seq![heading(dry_run, targets.len())] + target_lines(targets, targets.len() as int)
}

/// The question whether to go on.
pub open spec fn question() -> PieceView {
    plain("\nPrune these worktrees? [y/N] "@)
}

/// What is said before a working copy is removed.
pub open spec fn pruning_said(name: Seq<char>) -> Seq<PieceView> {
    seq![plain("Pruning "@), in_hue(Hue::Yellow, name), plain("... "@)]
}

/// What is said when a working copy was removed.
pub open spec fn done_said() -> Seq<PieceView> {
    seq![in_hue(Hue::Green, "done"@), plain("\n"@)]
}

/// What is said when a working copy could not be removed.
pub open spec fn failed_said(stderr: Seq<char>) -> Seq<PieceView> {
    seq![
        in_hue(Hue::Red, "failed"@),
        plain("\n"@),
        on_stderr(Tint::Plain, "  Error: "@ + trim_space(stderr) + "\n"@),
    ]
}

/// What is said before a working copy is removed with force.
pub open spec fn forcing_said() -> Seq<PieceView> {
    seq![plain("has uncommitted changes, removing with --force... "@)]
}

/// The last line: how many working copies were removed.
pub open spec fn summary(removed: nat) -> Seq<PieceView> {
    seq![plain("\nPruned "@ + decimal(removed) + " worktree"@ + plural(removed) + "\n"@)]
}

/// The prune ends with `error`.
pub open spec fn halted(state: PruneView, error: ErrorView) -> (PruneView, ActionView) {
    (PruneView { stage: PruneStage::Done, ..state }, failure(error))
}

/// The prune ends well after saying `say`.
pub open spec fn finished(state: PruneView, say: Seq<PieceView>) -> (PruneView, ActionView) {
    (PruneView { stage: PruneStage::Done, ..state }, ActionView { say, request: RequestView::Finish })
}

/// One more than `n`, as far as the machine can count.
pub open spec fn one_more(n: usize) -> usize {
    if n < usize::MAX {
        (n + 1) as usize
    } else {
        n
    }
}

/// The prune goes on with the working copy `state.next` after saying
/// `said`: it asks for that working copy's removal, or, where none is
/// left, says how many were removed and ends.
pub open spec fn proceed(workdir: Seq<char>, state: PruneView, said: Seq<PieceView>) -> (
    PruneView,
    ActionView,
) {
    if state.next < state.targets.len() {
        let target = state.targets[state.next as int];
        (
            PruneView { stage: PruneStage::Removing, ..state },
            ActionView {
                say: said + pruning_said(target.name),
                request: run(workdir, remove_args(target.record.path, false)),
            },
        )
    } else {
        finished(state, said + summary(state.removed as nat))
    }
}

/// What follows the answer to the request for the merged branches;
/// `listing` is their list, where it could be had. The working copies to
/// prune are fixed here. Where there are none, or the run is a dry run, the
/// prune ends after saying so; else the user is asked, or, with `force`,
/// the first removal is asked for.
pub open spec fn checked(
    workdir: Seq<char>,
    dry_run: bool,
    force: bool,
    state: PruneView,
    listing: Option<Seq<char>>,
) -> (PruneView, ActionView) {
    let targets = prune_targets(classified(workdir, listing, state.records));
    let next = PruneView { records: Seq::empty(), targets, next: 0, removed: 0, ..state };
    if targets.len() == 0 {
        finished(next, nothing_said())
    } else if dry_run {
        finished(next, announcement(true, targets))
    } else if !force {
        (
            PruneView { stage: PruneStage::Confirming, ..next },
            ActionView {
                say: announcement(false, targets).push(question()),
                request: RequestView::Ask,
            },
        )
    } else {
        proceed(workdir, next, announcement(false, targets))
    }
}

/// What follows the answer to the request for a removal: after a removal
/// that worked, the next working copy; after one that failed on changed or
/// untracked files, the same removal with force, once; after any other
/// failure, the next working copy, with the failure said. Where the tool
/// could not be started the prune ends.
pub open spec fn removal_answered(workdir: Seq<char>, state: PruneView, event: EventView) -> (
    PruneView,
    ActionView,
) {
    match event {
        EventView::Exited { success, stdout, stderr } => if state.next >= state.targets.len() {
            halted(state, ErrorView::UnexpectedEvent)
        } else if success {
            proceed(
                workdir,
                PruneView {
                    next: (state.next + 1) as usize,
                    removed: one_more(state.removed),
                    ..state
                },
                done_said(),
            )
        } else if state.stage == PruneStage::Removing && failure_kind(Operation::Remove, stderr)
            == FailureKind::HasUncommittedChanges {
            (
                PruneView { stage: PruneStage::Forcing, ..state },
                ActionView {
                    say: forcing_said(),
                    request: run(
                        workdir,
                        remove_args(state.targets[state.next as int].record.path, true),
                    ),
                },
            )
        } else {
            proceed(
                workdir,
                PruneView { next: (state.next + 1) as usize, ..state },
                failed_said(stderr),
            )
        },
        EventView::LaunchFailed { reason } => halted(
            state,
            ErrorView::SubprocessLaunchFailure {
                context: "Failed to execute git worktree remove command"@,
            },
        ),
        _ => halted(state, ErrorView::UnexpectedEvent),
    }
}

/// One step of a prune: the state and the action that follow `state` on
/// `event`.
pub open spec fn prune_step(
    workdir: Seq<char>,
    dry_run: bool,
    force: bool,
    state: PruneView,
    event: EventView,
) -> (PruneView, ActionView) {
    match state.stage {
        PruneStage::Start => match event {
            EventView::Begin => (
                PruneView { stage: PruneStage::Listing, ..state },
                ActionView { say: Seq::empty(), request: run(workdir, list_args()) },
            ),
            _ => halted(state, ErrorView::UnexpectedEvent),
        },
        PruneStage::Listing => match listing_result(main_path(workdir), event) {
            Ok(all) => if wants_merge_check(all) {
                (
                    PruneView { stage: PruneStage::Checking, records: all, ..state },
                    ActionView { say: Seq::empty(), request: run(workdir, merged_args()) },
                )
            } else {
                finished(state, nothing_said())
            },
            Err(error) => halted(state, error),
        },
        PruneStage::Checking => match event {
            EventView::Exited { success, stdout, stderr } => checked(
                workdir,
                dry_run,
                force,
                state,
                if success {
                    Some(stdout)
                } else {
                    None
                },
            ),
            EventView::LaunchFailed { reason } => checked(workdir, dry_run, force, state, None),
            _ => halted(state, ErrorView::UnexpectedEvent),
        },
        PruneStage::Confirming => match event {
            EventView::Answered { line } => if is_yes(line) {
                proceed(workdir, state, Seq::empty())
            } else {
                finished(state, seq![plain("Cancelled\n"@)])
            },
            _ => halted(state, ErrorView::UnexpectedEvent),
        },
        PruneStage::Removing => removal_answered(workdir, state, event),
        PruneStage::Forcing => removal_answered(workdir, state, event),
        PruneStage::Done => halted(state, ErrorView::UnexpectedEvent),
    }
}

/// The place of a stage in the course of a prune.
pub open spec fn stage_order(stage: PruneStage) -> nat {
    match stage {
        PruneStage::Start => 0,
        PruneStage::Listing => 1,
        PruneStage::Checking => 2,
        PruneStage::Confirming => 3,
        PruneStage::Removing => 4,
        PruneStage::Forcing => 4,
        PruneStage::Done => 5,
    }
}

/// How many requests for a removal can still follow: two for each working
/// copy that was not tried yet, one for the working copy that was tried
/// without force.
pub open spec fn removals_left(state: PruneView) -> int {
    2 * (state.targets.len() - state.next) + if state.stage == PruneStage::Removing {
        1int
    } else {
        0int
    }
}

/// The requests that ask nothing to be made or removed are no mutations.
proof fn lemma_looking_is_no_mutation(dir: Seq<char>)
    ensures
        !is_mutation(run(dir, list_args())),
        !is_mutation(run(dir, merged_args())),
{
    reveal_strlit("worktree");
    reveal_strlit("list");
    reveal_strlit("add");
    reveal_strlit("remove");
    reveal_strlit("branch");
    reveal_strlit("pull");
    assert(list_args()[1] == "list"@);
    assert("worktree"@[0] != "pull"@[0]);
}

/// A prune ends: no step goes back to an earlier stage, each step before
/// the removals reaches a later stage, each step during the removals
/// leaves fewer removals to ask for, and the prune is over exactly when
/// the request is to finish or to fail.
pub proof fn lemma_prune_ends(
    workdir: Seq<char>,
    dry_run: bool,
    force: bool,
    state: PruneView,
    event: EventView,
)
    requires
        state.targets.len() <= usize::MAX,
    ensures
        ({
            let next = prune_step(workdir, dry_run, force, state, event).0;
            let request = prune_step(workdir, dry_run, force, state, event).1.request;
            &&& stage_order(next.stage) >= stage_order(state.stage)
            &&& state.stage != PruneStage::Done ==> stage_order(next.stage) > stage_order(
                state.stage,
            ) || (next.targets == state.targets && 0 <= removals_left(next) < removals_left(
                state,
            ))
            &&& next.stage == PruneStage::Done <==> is_final(request)
        }),
{
}

/// Whether the counts of a prune fit together: no more working copies were
/// removed than were tried, and no more were tried than there are to
/// remove.
pub open spec fn counts_fit(state: PruneView) -> bool {
    state.removed <= state.next <= state.targets.len()
}

/// The counts of a prune fit together from its start to its end, so the
/// number that the last line gives is the number of removals that worked
/// and never more than the number of working copies to remove.
pub proof fn lemma_counts_fit(
    workdir: Seq<char>,
    dry_run: bool,
    force: bool,
    state: PruneView,
    event: EventView,
)
    requires
        state.targets.len() <= usize::MAX,
        counts_fit(state),
    ensures
        counts_fit(prune_start()),
        counts_fit(prune_step(workdir, dry_run, force, state, event).0),
        ({
            let next = prune_step(workdir, dry_run, force, state, event).0;
            let worked = (state.stage == PruneStage::Removing || state.stage
                == PruneStage::Forcing) && state.next < state.targets.len() && event is Exited
                && event->success;
            stage_order(state.stage) >= 3 ==> next.removed == state.removed + if worked {
                1int
            } else {
                0int
            }
        }),
{
}

/// A dry run removes nothing: it never leaves the stages in which the
/// candidates are found, and none of its requests has the tool change
/// anything.
pub proof fn lemma_dry_run_removes_nothing(
    workdir: Seq<char>,
    force: bool,
    state: PruneView,
    event: EventView,
)
    requires
        stage_order(state.stage) <= 2 || state.stage == PruneStage::Done,
    ensures
        ({
            let next = prune_step(workdir, true, force, state, event).0;
            let request = prune_step(workdir, true, force, state, event).1.request;
            &&& stage_order(next.stage) <= 2 || next.stage == PruneStage::Done
            &&& !is_mutation(request)
        }),
{
    lemma_looking_is_no_mutation(workdir);
}

/// Without force nothing is removed before the user has said yes: up to
/// the question no request has the tool change anything, and any answer
/// but yes ends the prune.
pub proof fn lemma_asks_before_removing(
    workdir: Seq<char>,
    state: PruneView,
    event: EventView,
)
    ensures
        ({
            let next = prune_step(workdir, false, false, state, event).0;
            let request = prune_step(workdir, false, false, state, event).1.request;
            &&& stage_order(state.stage) <= 2 ==> !is_mutation(request) && stage_order(next.stage)
                <= 3 || next.stage == PruneStage::Done
            &&& state.stage == PruneStage::Confirming && !(event is Answered && is_yes(
                event->line,
            )) ==> request is Finish || request is Fail
        }),
{
    lemma_looking_is_no_mutation(workdir);
}

/// Only working copies that are merged are removed, and never the primary
/// working copy: the working copies to remove are fixed when the merged
/// branches are known, each of them is merged and is not the primary
/// working copy, and every request that has the tool change anything asks
/// for the removal of the one that is next.
pub proof fn lemma_removes_only_merged(
    workdir: Seq<char>,
    dry_run: bool,
    force: bool,
    state: PruneView,
    event: EventView,
)
    ensures
        ({
            let next = prune_step(workdir, dry_run, force, state, event).0;
            let request = prune_step(workdir, dry_run, force, state, event).1.request;
            &&& state.stage == PruneStage::Checking && (event is Exited || event is LaunchFailed)
                ==> forall|i: int|
                0 <= i < next.targets.len() ==> next.targets[i].merged
                    && !next.targets[i].record.is_main
            &&& stage_order(state.stage) >= 3 ==> next.targets == state.targets
            &&& is_mutation(request) ==> next.next < next.targets.len() && request is Run && (
            request->args == remove_args(next.targets[next.next as int].record.path, false)
                || request->args == remove_args(
                next.targets[next.next as int].record.path,
                true,
            ))
        }),
{
    lemma_looking_is_no_mutation(workdir);
    let next = prune_step(workdir, dry_run, force, state, event).0;
    if state.stage == PruneStage::Checking && (event is Exited || event is LaunchFailed) {
        let listing = if event is Exited && event->success {
            Some(event->stdout)
        } else {
            None
        };
        assert forall|i: int| 0 <= i < next.targets.len() implies next.targets[i].merged
            && !next.targets[i].record.is_main by {
            lemma_targets_are_merged(workdir, listing, state.records, i);
        }
    }
}

/// The prune ends with `error`.
fn halt(state: PruneState, error: WorktreeError) -> (r: (PruneState, Action))
    ensures
        r.0@ == halted(state@, error@).0,
        r.1@ == halted(state@, error@).1,
{
    let mut state = state;
    state.stage = PruneStage::Done;
    (state, fail(error))
}

/// The prune ends well after saying `say`.
fn finish(state: PruneState, say: Vec<Piece>) -> (r: (PruneState, Action))
    ensures
        r.0@ == finished(state@, pieces(say@)).0,
        r.1@ == finished(state@, pieces(say@)).1,
{
    let mut state = state;
    state.stage = PruneStage::Done;
    (state, Action { say, request: Request::Finish })
}

/// Whether the list of merged branches is needed.
fn needs_merge_check(all: &Vec<WorktreeRecord>) -> (r: bool)
    ensures
        r == wants_merge_check(records(all@)),
{
    let mut i: usize = 0;
    while i < all.len()
        invariant
            i <= all.len(),
            forall|j: int|
                0 <= j < i ==> records(all@)[j].is_main || records(all@)[j].branch is None,
        decreases all.len() - i,
    {
        if !all[i].is_main && all[i].branch.is_some() {
            assert(!records(all@)[i as int].is_main && records(all@)[i as int].branch is Some);
            return true;
        }
        i += 1;
    }
    false
}

/// Says the working copies to prune, under their heading.
fn announce(say: &mut Vec<Piece>, dry_run: bool, targets: &Vec<PruneCandidate>)
    ensures
        pieces(final(say)@) == pieces(old(say)@) + announcement(dry_run, candidates(targets@)),
{
    let n: usize = targets.len();
    let mut text = String::from_str(
        if dry_run {
            "Would prune "
        } else {
            "Found "
        },
    );
    text.append(decimal_text(n).as_str());
    text.append(" merged worktree");
    text.append(plural_of(n));
    text.append(
        if dry_run {
            ":\n"
        } else {
            " to prune:\n"
        },
    );
    say_out(say, Tint::Plain, text);
    let ghost all = candidates(targets@);
    let ghost base = pieces(old(say)@) + seq![heading(dry_run, all.len())];
    let mut i: usize = 0;
    while i < n
        invariant
            i <= n,
            n == targets@.len(),
            all == candidates(targets@),
            pieces(say@) == base + target_lines(all, i as int),
        decreases n - i,
    {
        let target = &targets[i];
        say_plain(say, "  ");
        say_colored(say, Hue::Yellow, target.name.as_str());
        say_plain(say, " [");
        say_colored(say, Hue::Cyan, branch_label_of(&target.record).as_str());
        let mut tail = String::from_str("] at ");
        tail.append(target.record.path.as_str());
        tail.append("\n");
        say_out(say, Tint::Plain, tail);
        i += 1;
    }
}

/// The prune goes on with the working copy `state.next` after saying
/// `say`.
fn go_on(repo: &RepositoryHandle, state: PruneState, say: Vec<Piece>) -> (r: (
    PruneState,
    Action,
))
    ensures
        r.0@ == proceed(repo@.workdir, state@, pieces(say@)).0,
        r.1@ == proceed(repo@.workdir, state@, pieces(say@)).1,
{
    let mut state = state;
    let mut say = say;
    let ghost said = pieces(say@);
    if state.next < state.targets.len() {
        let target = &state.targets[state.next];
        say_plain(&mut say, "Pruning ");
        say_colored(&mut say, Hue::Yellow, target.name.as_str());
        say_plain(&mut say, "... ");
        assert(pieces(say@) =~= said + pruning_said(target@.name));
        let args = remove_command(target.record.path.as_str(), false);
        let request = Request::Run { dir: String::from_str(repo.workdir()), args };
        state.stage = PruneStage::Removing;
        (state, Action { say, request })
    } else {
        let n: usize = state.removed;
        let mut text = String::from_str("\nPruned ");
        text.append(decimal_text(n).as_str());
        text.append(" worktree");
        text.append(plural_of(n));
        text.append("\n");
        say_out(&mut say, Tint::Plain, text);
        assert(pieces(say@) =~= said + summary(n as nat));
        finish(state, say)
    }
}

/// What follows the answer to the request for the merged branches.
fn after_check(
    repo: &RepositoryHandle,
    dry_run: bool,
    force: bool,
    state: PruneState,
    listing: Option<&str>,
) -> (r: (PruneState, Action))
    ensures
        r.0@ == checked(
            repo@.workdir,
            dry_run,
            force,
            state@,
            match listing {
                Some(l) => Some(l@),
                None => None,
            },
        ).0,
        r.1@ == checked(
            repo@.workdir,
            dry_run,
            force,
            state@,
            match listing {
                Some(l) => Some(l@),
                None => None,
            },
        ).1,
{
    let PruneState { stage, records: all, targets: _, next: _, removed: _ } = state;
    let targets = merged_only(classify(repo, all, listing));
    let mut say: Vec<Piece> = Vec::new();
    assert(pieces(say@) =~= Seq::<PieceView>::empty());
    let none = targets.len() == 0;
    if none {
        say_plain(&mut say, "No worktrees to prune\n");
    } else {
        announce(&mut say, dry_run, &targets);
    }
    let next = PruneState { stage, records: Vec::new(), targets, next: 0, removed: 0 };
    assert(next@.records =~= Seq::<RecordView>::empty());
    if none || dry_run {
        finish(next, say)
    } else if !force {
        say_plain(&mut say, "\nPrune these worktrees? [y/N] ");
        let mut next = next;
        next.stage = PruneStage::Confirming;
        (next, Action { say, request: Request::Ask })
    } else {
        go_on(repo, next, say)
    }
}

/// What follows the answer to the request for a removal.
fn after_removal(repo: &RepositoryHandle, state: PruneState, event: &Event) -> (r: (
    PruneState,
    Action,
))
    requires
        state.stage == PruneStage::Removing || state.stage == PruneStage::Forcing,
    ensures
        r.0@ == removal_answered(repo@.workdir, state@, event@).0,
        r.1@ == removal_answered(repo@.workdir, state@, event@).1,
{
    match event {
        Event::Exited { success, stdout, stderr } => {
            if state.next >= state.targets.len() {
                return halt(state, WorktreeError::UnexpectedEvent);
            }
            let mut state = state;
            let mut say: Vec<Piece> = Vec::new();
            assert(pieces(say@) =~= Seq::<PieceView>::empty());
            if *success {
                say_colored(&mut say, Hue::Green, "done");
                say_plain(&mut say, "\n");
                assert(pieces(say@) =~= done_said());
                state.next = state.next + 1;
                if state.removed < usize::MAX {
                    state.removed = state.removed + 1;
                }
                go_on(repo, state, say)
            } else if state.stage == PruneStage::Removing && classify_failure(
                Operation::Remove,
                stderr.as_str(),
            ) == FailureKind::HasUncommittedChanges {
                say_plain(&mut say, "has uncommitted changes, removing with --force... ");
                let target = &state.targets[state.next];
                let args = remove_command(target.record.path.as_str(), true);
                let request = Request::Run { dir: String::from_str(repo.workdir()), args };
                state.stage = PruneStage::Forcing;
                (state, Action { say, request })
            } else {
                say_colored(&mut say, Hue::Red, "failed");
                say_plain(&mut say, "\n");
                let mut text = String::from_str("  Error: ");
                text.append(text_of(&trimmed(&chars_of(stderr.as_str()))).as_str());
                text.append("\n");
                say_err(&mut say, Tint::Plain, text);
                assert(pieces(say@) =~= failed_said(stderr@));
                state.next = state.next + 1;
                go_on(repo, state, say)
            }
        },
        Event::LaunchFailed { reason } => halt(
            state,
            WorktreeError::SubprocessLaunchFailure {
                context: String::from_str("Failed to execute git worktree remove command"),
            },
        ),
        _ => halt(state, WorktreeError::UnexpectedEvent),
    }
}

/// One step of a prune of the merged working copies. With `dry_run` the
/// candidates are shown and nothing is removed; with `force` the user is
/// not asked. The first step takes a new state and `Event::Begin`; each
/// further step takes the state that the step before returned and the
/// event that answers its request, until the request is to finish or to
/// fail.
pub fn prune_merged_worktrees(
    repo: &RepositoryHandle,
    dry_run: bool,
    force: bool,
    state: PruneState,
    event: &Event,
) -> (r: (PruneState, Action))
    ensures
        r.0@ == prune_step(repo@.workdir, dry_run, force, state@, event@).0,
        r.1@ == prune_step(repo@.workdir, dry_run, force, state@, event@).1,
{
    match state.stage {
        PruneStage::Start => match event {
            Event::Begin => {
                let mut state = state;
                state.stage = PruneStage::Listing;
                let say: Vec<Piece> = Vec::new();
                assert(pieces(say@) =~= Seq::<PieceView>::empty());
                let request = Request::Run {
                    dir: String::from_str(repo.workdir()),
                    args: list_command(),
                };
                (state, Action { say, request })
            },
            _ => halt(state, WorktreeError::UnexpectedEvent),
        },
        PruneStage::Listing => match read_listing(repo, event) {
            Ok(all) => {
                let mut say: Vec<Piece> = Vec::new();
                assert(pieces(say@) =~= Seq::<PieceView>::empty());
                if needs_merge_check(&all) {
                    let PruneState { stage: _, records: _, targets, next, removed } = state;
                    let state = PruneState {
                        stage: PruneStage::Checking,
                        records: all,
                        targets,
                        next,
                        removed,
                    };
                    let request = Request::Run {
                        dir: String::from_str(repo.workdir()),
                        args: merged_command(),
                    };
                    (state, Action { say, request })
                } else {
                    say_plain(&mut say, "No worktrees to prune\n");
                    finish(state, say)
                }
            },
            Err(error) => halt(state, error),
        },
        PruneStage::Checking => match event {
            Event::Exited { success, stdout, stderr } => {
                if *success {
                    after_check(repo, dry_run, force, state, Some(stdout.as_str()))
                } else {
                    after_check(repo, dry_run, force, state, None)
                }
            },
            Event::LaunchFailed { reason } => after_check(repo, dry_run, force, state, None),
            _ => halt(state, WorktreeError::UnexpectedEvent),
        },
        PruneStage::Confirming => match event {
            Event::Answered { line } => {
                let mut say: Vec<Piece> = Vec::new();
                assert(pieces(say@) =~= Seq::<PieceView>::empty());
                if says_yes(line.as_str()) {
                    go_on(repo, state, say)
                } else {
                    say_plain(&mut say, "Cancelled\n");
                    finish(state, say)
                }
            },
            _ => halt(state, WorktreeError::UnexpectedEvent),
        },
        PruneStage::Removing => after_removal(repo, state, event),
        PruneStage::Forcing => after_removal(repo, state, event),
        PruneStage::Done => halt(state, WorktreeError::UnexpectedEvent),
    }
}

} // verus!
