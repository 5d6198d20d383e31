//! Pulling the trunk from the remote: into the primary working copy, into
//! one working copy by name, or into every working copy of the listing.
//! Each pull is tried once.

use vstd::prelude::*;
use vstd::string::StringExecFns;
use crate::error::{ErrorView, WorktreeError};
use crate::failure::{
    classify_failure, classify_pull, failure_kind, pull_result, FailureKind, Operation, PullResult,
};
use crate::merge::{branch_label, branch_label_of, leaf_of};
use crate::output::{pieces, say_out, Hue, Piece, PieceView, Tint};
use crate::paths::{leaf_name, main_path, resolve, worktree_path, RepositoryHandle};
use crate::porcelain::{records, RecordView};
use crate::protocol::{
    is_final, list_args, list_command, pull_args, pull_command, run, Action, ActionView, Event,
    EventView, Request, RequestView,
};
use crate::session::{
    halt_walk, in_hue, listing_result, plain, read_listing, say_colored, say_plain, steps_left,
    stop, stopped, walk_halted, walk_order, Stage, Walk, WalkStage, WalkView,
};
use crate::text::{chars_of, same_text, text_of, trim_space, trimmed};

verus! {

/// The words for what a pull did.
pub open spec fn pull_words(result: PullResult) -> Seq<char> {
    match result {
        PullResult::UpToDate => "Already up to date"@,
        PullResult::Updated => "Updated"@,
    }
}

/// The words for what a pull did.
pub fn words_of(result: PullResult) -> (r: &'static str)
    ensures
        r@ == pull_words(result),
{
    match result {
        PullResult::UpToDate => "Already up to date",
        PullResult::Updated => "Updated",
    }
}

/// The name under which a pull of every working copy shows `record`:
/// `main` for the primary working copy, else the last segment of its path.
pub open spec fn shown_name(record: RecordView) -> Seq<char> {
    if record.is_main {
        "main"@
    } else {
        leaf_name(record.path, branch_label(record.branch))
    }
}

/// What is said before `record` is pulled.
pub open spec fn visit_said(record: RecordView) -> Seq<PieceView> {
    seq![
        plain("  "@),
        in_hue(Hue::Yellow, shown_name(record)),
        plain(" ["@),
        in_hue(Hue::Cyan, branch_label(record.branch)),
        plain("]: "@),
    ]
}

/// What is said of a pull that ended with `event`, in a pull of every
/// working copy: what it did, that it was skipped for want of a remote, or
/// how it failed. Nothing for an event that answers no pull.
pub open spec fn pulled_said(event: EventView) -> Option<Seq<PieceView>> {
    match event {
        EventView::Exited { success, stdout, stderr } => if success {
            Some(seq![in_hue(Hue::Green, pull_words(pull_result(stdout))), plain("\n"@)])
        } else if failure_kind(Operation::Pull, stderr) == FailureKind::RemoteMissing {
            Some(seq![in_hue(Hue::Yellow, "Skipped"@), plain(": No remote configured\n"@)])
        } else {
            Some(seq![in_hue(Hue::Red, "Failed"@), plain(": "@ + trim_space(stderr) + "\n"@)])
        },
        EventView::LaunchFailed { reason } => Some(
            seq![in_hue(Hue::Red, "Error"@), plain(": "@ + reason + "\n"@)],
        ),
        _ => None,
    }
}

/// The pull of every working copy goes on with the record `walk.next`
/// after saying `said`, or ends where none is left.
pub open spec fn pull_next(walk: WalkView, said: Seq<PieceView>) -> (WalkView, ActionView) {
    if walk.next < walk.records.len() {
        let record = walk.records[walk.next as int];
        (
            WalkView { stage: WalkStage::Visiting, ..walk },
            ActionView { say: said + visit_said(record), request: run(record.path, pull_args()) },
        )
    } else {
        (
            WalkView { stage: WalkStage::Done, ..walk },
            ActionView { say: said, request: RequestView::Finish },
        )
    }
}

/// One step of a pull of every working copy: the state and the action that
/// follow `walk` on `event`. The working copies are pulled in the order of
/// the listing; one that fails is reported and the next one follows.
pub open spec fn pull_all_step(workdir: Seq<char>, walk: WalkView, event: EventView) -> (
    WalkView,
    ActionView,
) {
    match walk.stage {
        WalkStage::Start => match event {
            EventView::Begin => (
                WalkView { stage: WalkStage::Listing, ..walk },
                ActionView {
                    say: seq![plain("Pulling all worktrees from origin/main...\n"@)],
                    request: run(workdir, list_args()),
                },
            ),
            _ => walk_halted(walk, ErrorView::UnexpectedEvent),
        },
        WalkStage::Listing => match listing_result(main_path(workdir), event) {
            Ok(all) => pull_next(WalkView { records: all, next: 0, ..walk }, Seq::empty()),
            Err(error) => walk_halted(walk, error),
        },
        WalkStage::Visiting => if walk.next >= walk.records.len() {
            walk_halted(walk, ErrorView::UnexpectedEvent)
        } else {
            match pulled_said(event) {
                Some(said) => pull_next(WalkView { next: (walk.next + 1) as usize, ..walk }, said),
                None => walk_halted(walk, ErrorView::UnexpectedEvent),
            }
        },
        WalkStage::Done => walk_halted(walk, ErrorView::UnexpectedEvent),
    }
}

/// The line that says which working copy is pulled.
pub open spec fn pulling_line(name: Seq<char>) -> PieceView {
    plain("Pulling worktree '"@ + name + "' from origin/main...\n"@)
}

/// What a pull of one working copy that failed with `stderr` ends with;
/// `prefix` opens the line for the user.
pub open spec fn pull_failure(prefix: Seq<char>, stderr: Seq<char>) -> ErrorView {
    if failure_kind(Operation::Pull, stderr) == FailureKind::RemoteMissing {
        ErrorView::RemoteMissing
    } else {
        ErrorView::SubprocessReportedFailure { text: prefix + stderr }
    }
}

/// The error for a pull that could not be started.
pub open spec fn pull_not_started() -> ErrorView {
    ErrorView::SubprocessLaunchFailure { context: "Failed to execute git pull command"@ }
}

/// One step of a pull of the working copy `name`; `main` names the primary
/// working copy, whatever working copies there are.
pub open spec fn pull_one_step(workdir: Seq<char>, name: Seq<char>, stage: Stage, event: EventView)
    -> (Stage, ActionView) {
    match (stage, event) {
        (Stage::Start, EventView::Begin) => if name == "main"@ {
            (
                Stage::Running,
                ActionView { say: seq![pulling_line(name)], request: run(workdir, pull_args()) },
            )
        } else if name.len() == 0 {
            stopped(ErrorView::EmptyName)
        } else {
            (
                Stage::Probing,
                ActionView {
                    say: Seq::empty(),
                    request: RequestView::Probe { path: worktree_path(workdir, name) },
                },
            )
        },
        (Stage::Probing, EventView::Probed { exists }) => if name.len() == 0 {
            stopped(ErrorView::EmptyName)
        } else if exists {
            (
                Stage::Running,
                ActionView {
                    say: seq![pulling_line(name)],
                    request: run(worktree_path(workdir, name), pull_args()),
                },
            )
        } else {
            stopped(ErrorView::NotFound { name, place: None })
        },
        (Stage::Running, EventView::Exited { success, stdout, stderr }) => if success {
            (
                Stage::Done,
                ActionView {
                    say: seq![
                        in_hue(Hue::Yellow, name),
                        plain(": "@),
                        in_hue(Hue::Green, pull_words(pull_result(stdout))),
                        plain("\n"@),
                    ],
                    request: RequestView::Finish,
                },
            )
        } else {
            stopped(pull_failure("Failed to pull worktree '"@ + name + "': "@, stderr))
        },
        (Stage::Running, EventView::LaunchFailed { reason }) => stopped(pull_not_started()),
        _ => stopped(ErrorView::UnexpectedEvent),
    }
}

/// One step of a pull of the primary working copy.
pub open spec fn pull_current_step(workdir: Seq<char>, stage: Stage, event: EventView) -> (
    Stage,
    ActionView,
) {
    match (stage, event) {
        (Stage::Start, EventView::Begin) => (
            Stage::Running,
            ActionView {
                say: seq![plain("Pulling current worktree from origin/main...\n"@)],
                request: run(workdir, pull_args()),
            },
        ),
        (Stage::Running, EventView::Exited { success, stdout, stderr }) => if success {
            (
                Stage::Done,
                ActionView {
                    say: seq![in_hue(Hue::Green, pull_words(pull_result(stdout))), plain("\n"@)],
                    request: RequestView::Finish,
                },
            )
        } else {
            stopped(pull_failure("Failed to pull: "@, stderr))
        },
        (Stage::Running, EventView::LaunchFailed { reason }) => stopped(pull_not_started()),
        _ => stopped(ErrorView::UnexpectedEvent),
    }
}

/// A pull of every working copy visits the records in the order of the
/// listing and ends: no step goes back to an earlier stage, each step
/// reaches a later stage or the next record, a failed pull does not end
/// the walk, and the walk is over exactly when the request is to finish or
/// to fail.
pub proof fn lemma_pull_all_ends(workdir: Seq<char>, walk: WalkView, event: EventView)
    requires
        walk.records.len() <= usize::MAX,
    ensures
        ({
            let next = pull_all_step(workdir, walk, event).0;
            let request = pull_all_step(workdir, walk, event).1.request;
            &&& walk_order(next.stage) >= walk_order(walk.stage)
            &&& walk.stage != WalkStage::Done ==> walk_order(next.stage) > walk_order(walk.stage)
                || (next.records == walk.records && next.next == walk.next + 1)
            &&& next.stage == WalkStage::Visiting ==> next.next < next.records.len() && request
                == run(next.records[next.next as int].path, pull_args())
            &&& walk.stage == WalkStage::Visiting && walk.next < walk.records.len() && (
            event is Exited || event is LaunchFailed) ==> !(request is Fail)
            &&& next.stage == WalkStage::Done <==> is_final(request)
        }),
{
}

/// A pull of one working copy is tried once: it ends after at most three
/// steps, and the tool is asked at most once.
pub proof fn lemma_pull_is_tried_once(
    workdir: Seq<char>,
    name: Seq<char>,
    stage: Stage,
    event: EventView,
)
    ensures
        stage != Stage::Done ==> steps_left(pull_one_step(workdir, name, stage, event).0)
            < steps_left(stage),
        stage != Stage::Done ==> steps_left(pull_current_step(workdir, stage, event).0)
            < steps_left(stage),
        pull_one_step(workdir, name, stage, event).0 != Stage::Retrying,
        pull_current_step(workdir, stage, event).0 != Stage::Retrying,
        pull_one_step(workdir, name, stage, event).1.request is Run ==> pull_one_step(
            workdir,
            name,
            stage,
            event,
        ).0 == Stage::Running,
        pull_current_step(workdir, stage, event).1.request is Run ==> pull_current_step(
            workdir,
            stage,
            event,
        ).0 == Stage::Running,
        pull_one_step(workdir, name, stage, event).0 == Stage::Done <==> is_final(
            pull_one_step(workdir, name, stage, event).1.request,
        ),
        pull_current_step(workdir, stage, event).0 == Stage::Done <==> is_final(
            pull_current_step(workdir, stage, event).1.request,
        ),
{
}

/// The error that a pull of one working copy that failed with `stderr`
/// ends with.
fn failure_of_pull(prefix: String, stderr: &str) -> (e: WorktreeError)
    ensures
        e@ == pull_failure(prefix@, stderr@),
{
    if classify_failure(Operation::Pull, stderr) == FailureKind::RemoteMissing {
        WorktreeError::RemoteMissing
    } else {
        let mut text = prefix;
        text.append(stderr);
        WorktreeError::SubprocessReportedFailure { text }
    }
}

/// The error for a pull that could not be started.
fn not_started() -> (e: WorktreeError)
    ensures
        e@ == pull_not_started(),
{
    WorktreeError::SubprocessLaunchFailure {
        context: String::from_str("Failed to execute git pull command"),
    }
}

/// The action that says which working copy is pulled and asks for the
/// pull in `dir`.
fn start_pull(name: &str, dir: &str) -> (a: Action)
    ensures
        a@ == (ActionView { say: seq![pulling_line(name@)], request: run(dir@, pull_args()) }),
{
    let mut say: Vec<Piece> = Vec::new();
    assert(pieces(say@) =~= Seq::<PieceView>::empty());
    let mut line = String::from_str("Pulling worktree '");
    line.append(name);
    line.append("' from origin/main...\n");
    say_out(&mut say, Tint::Plain, line);
    Action { say, request: Request::Run { dir: String::from_str(dir), args: pull_command() } }
}

/// Says what is said of a pull that ended with `event`; false for an event
/// that answers no pull.
fn say_pulled(say: &mut Vec<Piece>, event: &Event) -> (known: bool)
    requires
        old(say)@.len() == 0,
    ensures
        match pulled_said(event@) {
            Some(said) => known && pieces(final(say)@) == said,
            None => !known,
        },
{
    match event {
        Event::Exited { success, stdout, stderr } => {
            if *success {
                say_colored(say, Hue::Green, words_of(classify_pull(stdout.as_str())));
                say_plain(say, "\n");
            } else if classify_failure(Operation::Pull, stderr.as_str())
                == FailureKind::RemoteMissing {
                say_colored(say, Hue::Yellow, "Skipped");
                say_plain(say, ": No remote configured\n");
            } else {
                say_colored(say, Hue::Red, "Failed");
                let mut text = String::from_str(": ");
                text.append(text_of(&trimmed(&chars_of(stderr.as_str()))).as_str());
                text.append("\n");
                say_out(say, Tint::Plain, text);
            }
            true
        },
        Event::LaunchFailed { reason } => {
            say_colored(say, Hue::Red, "Error");
            let mut text = String::from_str(": ");
            text.append(reason.as_str());
            text.append("\n");
            say_out(say, Tint::Plain, text);
            true
        },
        _ => false,
    }
}

/// The pull of every working copy goes on with the record `walk.next`
/// after saying `say`.
fn go_on(walk: Walk, say: Vec<Piece>) -> (r: (Walk, Action))
    ensures
        r.0@ == pull_next(walk@, pieces(say@)).0,
        r.1@ == pull_next(walk@, pieces(say@)).1,
{
    let mut walk = walk;
    let mut say = say;
    let ghost said = pieces(say@);
    if walk.next < walk.records.len() {
        let record = &walk.records[walk.next];
        let label = branch_label_of(record);
        let name = if record.is_main {
            String::from_str("main")
        } else {
            leaf_of(record.path.as_str(), label.as_str())
        };
        say_plain(&mut say, "  ");
        say_colored(&mut say, Hue::Yellow, name.as_str());
        say_plain(&mut say, " [");
        say_colored(&mut say, Hue::Cyan, label.as_str());
        say_plain(&mut say, "]: ");
        assert(pieces(say@) =~= said + visit_said(record@));
        let request = Request::Run { dir: record.path.clone(), args: pull_command() };
        walk.stage = WalkStage::Visiting;
        (walk, Action { say, request })
    } else {
        walk.stage = WalkStage::Done;
        (walk, Action { say, request: Request::Finish })
    }
}

/// One step of a pull of every working copy. The first step takes a new
/// walk and `Event::Begin`; each further step takes the walk that the step
/// before returned and the event that answers its request, until the
/// request is to finish or to fail.
pub fn pull_all_worktrees(repo: &RepositoryHandle, walk: Walk, event: &Event) -> (r: (
    Walk,
    Action,
))
    ensures
        r.0@ == pull_all_step(repo@.workdir, walk@, event@).0,
        r.1@ == pull_all_step(repo@.workdir, walk@, event@).1,
{
    match walk.stage {
        WalkStage::Start => match event {
            Event::Begin => {
                let mut walk = walk;
                walk.stage = WalkStage::Listing;
                let mut say: Vec<Piece> = Vec::new();
                assert(pieces(say@) =~= Seq::<PieceView>::empty());
                say_plain(&mut say, "Pulling all worktrees from origin/main...\n");
                let request = Request::Run {
                    dir: String::from_str(repo.workdir()),
                    args: list_command(),
                };
                (walk, Action { say, request })
            },
            _ => halt_walk(walk, WorktreeError::UnexpectedEvent),
        },
        WalkStage::Listing => match read_listing(repo, event) {
            Ok(all) => {
                let say: Vec<Piece> = Vec::new();
                assert(pieces(say@) =~= Seq::<PieceView>::empty());
                go_on(Walk { stage: walk.stage, records: all, next: 0 }, say)
            },
            Err(error) => halt_walk(walk, error),
        },
        WalkStage::Visiting => {
            if walk.next >= walk.records.len() {
                return halt_walk(walk, WorktreeError::UnexpectedEvent);
            }
            let mut say: Vec<Piece> = Vec::new();
            if say_pulled(&mut say, event) {
                let mut walk = walk;
                walk.next = walk.next + 1;
                go_on(walk, say)
            } else {
                halt_walk(walk, WorktreeError::UnexpectedEvent)
            }
        },
        WalkStage::Done => halt_walk(walk, WorktreeError::UnexpectedEvent),
    }
}

/// One step of a pull of the working copy `worktree_name`. The first step
/// takes `Stage::Start` and `Event::Begin`; each further step takes the
/// stage that the step before returned and the event that answers its
/// request, until the request is to finish or to fail.
pub fn pull_worktree(repo: &RepositoryHandle, worktree_name: &str, stage: Stage, event: &Event)
    -> (r: (Stage, Action))
    ensures
        r.0 == pull_one_step(repo@.workdir, worktree_name@, stage, event@).0,
        r.1@ == pull_one_step(repo@.workdir, worktree_name@, stage, event@).1,
{
    match (stage, event) {
        (Stage::Start, Event::Begin) => {
            if same_text(worktree_name, "main") {
                (Stage::Running, start_pull(worktree_name, repo.workdir()))
            } else {
                match resolve(repo, worktree_name) {
                    Ok(path) => {
                        let say: Vec<Piece> = Vec::new();
                        assert(pieces(say@) =~= Seq::<PieceView>::empty());
                        (Stage::Probing, Action { say, request: Request::Probe { path } })
                    },
                    Err(error) => stop(error),
                }
            }
        },
        (Stage::Probing, Event::Probed { exists }) => {
            match resolve(repo, worktree_name) {
                Ok(path) => {
                    if *exists {
                        (Stage::Running, start_pull(worktree_name, path.as_str()))
                    } else {
                        stop(
                            WorktreeError::NotFound {
                                name: String::from_str(worktree_name),
                                place: None,
                            },
                        )
                    }
                },
                Err(error) => stop(error),
            }
        },
        (Stage::Running, Event::Exited { success, stdout, stderr }) => {
            if *success {
                let mut say: Vec<Piece> = Vec::new();
                say_colored(&mut say, Hue::Yellow, worktree_name);
                say_plain(&mut say, ": ");
                say_colored(&mut say, Hue::Green, words_of(classify_pull(stdout.as_str())));
                say_plain(&mut say, "\n");
                assert(pieces(say@) =~= pull_one_step(
                    repo@.workdir,
                    worktree_name@,
                    stage,
                    event@,
                ).1.say);
                (Stage::Done, Action { say, request: Request::Finish })
            } else {
                let mut prefix = String::from_str("Failed to pull worktree '");
                prefix.append(worktree_name);
                prefix.append("': ");
                stop(failure_of_pull(prefix, stderr.as_str()))
            }
        },
        (Stage::Running, Event::LaunchFailed { reason }) => stop(not_started()),
        _ => stop(WorktreeError::UnexpectedEvent),
    }
}

/// One step of a pull of the primary working copy. The first step takes
/// `Stage::Start` and `Event::Begin`; the second the stage that the first
/// returned and the event that answers its request.
pub fn pull_current_worktree(repo: &RepositoryHandle, stage: Stage, event: &Event) -> (r: (
    Stage,
    Action,
))
    ensures
        r.0 == pull_current_step(repo@.workdir, stage, event@).0,
        r.1@ == pull_current_step(repo@.workdir, stage, event@).1,
{
    match (stage, event) {
        (Stage::Start, Event::Begin) => {
            let mut say: Vec<Piece> = Vec::new();
            assert(pieces(say@) =~= Seq::<PieceView>::empty());
            say_plain(&mut say, "Pulling current worktree from origin/main...\n");
            let request = Request::Run {
                dir: String::from_str(repo.workdir()),
                args: pull_command(),
            };
            (Stage::Running, Action { say, request })
        },
        (Stage::Running, Event::Exited { success, stdout, stderr }) => {
            if *success {
                let mut say: Vec<Piece> = Vec::new();
                say_colored(&mut say, Hue::Green, words_of(classify_pull(stdout.as_str())));
                say_plain(&mut say, "\n");
                assert(pieces(say@) =~= pull_current_step(repo@.workdir, stage, event@).1.say);
                (Stage::Done, Action { say, request: Request::Finish })
            } else {
                stop(failure_of_pull(String::from_str("Failed to pull: "), stderr.as_str()))
            }
        },
        (Stage::Running, Event::LaunchFailed { reason }) => stop(not_started()),
        _ => stop(WorktreeError::UnexpectedEvent),
    }
}

} // verus!
