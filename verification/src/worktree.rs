//! Operations on one working copy by name: making it, removing it, and
//! telling the shell how to go there. Making and removing try the tool
//! once and, after one known kind of failure, once more in another way.

use vstd::prelude::*;
use vstd::string::StringExecFns;
use crate::error::{quote, quoted, ErrorView, WorktreeError};
use crate::failure::{classify_failure, failure_kind, FailureKind, Operation};
use crate::output::{pieces, say_out, Piece, PieceView, Tint};
use crate::paths::{resolve, worktree_path, RepositoryHandle};
use crate::protocol::{
    add_existing_args, add_existing_command, add_new_args, add_new_command, is_final,
    remove_args, remove_command, run, Action, ActionView, Event, EventView, Request, RequestView,
};
use crate::session::{plain, quietly, say_plain, silent, steps_left, stop, stopped, Stage};

verus! {

/// The line that tells of something done to the working copy `name` at
/// `path`; `verb` says what.
pub open spec fn done_line(verb: Seq<char>, name: Seq<char>, path: Seq<char>) -> Seq<PieceView> {
    seq![plain(verb + " worktree '"@ + name + "' at "@ + quoted(path) + "\n"@)]
}

/// The error for a tool that reported failure with `stderr`; `prefix`
/// opens the line for the user.
pub open spec fn reported(prefix: Seq<char>, stderr: Seq<char>) -> ErrorView {
    ErrorView::SubprocessReportedFailure { text: prefix + stderr }
}

/// The error for a tool that could not be started.
pub open spec fn not_started(context: Seq<char>) -> ErrorView {
    ErrorView::SubprocessLaunchFailure { context }
}

/// Whether `event` answers what an operation at `stage` asked for.
pub open spec fn awaited(stage: Stage, event: EventView) -> bool {
    match stage {
        Stage::Start => event is Begin,
        Stage::Probing => event is Probed,
        Stage::Running => event is Exited || event is LaunchFailed,
        Stage::Retrying => event is Exited || event is LaunchFailed,
        Stage::Done => false,
    }
}

/// One step of making the working copy `name`. Nothing may be at its
/// path. The working copy is made on a new branch `name`; where the tool
/// reports that the branch exists, it is made on that branch instead.
/// Every other failure ends the operation, as does a failure of the second
/// try.
pub open spec fn create_step(workdir: Seq<char>, name: Seq<char>, stage: Stage, event: EventView)
    -> (Stage, ActionView) {
    let path = worktree_path(workdir, name);
    if !awaited(stage, event) {
        stopped(ErrorView::UnexpectedEvent)
    } else if name.len() == 0 {
        stopped(ErrorView::EmptyName)
    } else {
        match (stage, event) {
            (Stage::Start, EventView::Begin) => (
                Stage::Probing,
                silent(RequestView::Probe { path }),
            ),
            (Stage::Probing, EventView::Probed { exists }) => if exists {
                stopped(ErrorView::AlreadyExists { name, path })
            } else {
                (Stage::Running, silent(run(workdir, add_new_args(name, path))))
            },
            (Stage::Running, EventView::Exited { success, stdout, stderr }) => if success {
                (
                    Stage::Done,
                    ActionView {
                        say: done_line("Created"@, name, path),
                        request: RequestView::Finish,
                    },
                )
            } else if failure_kind(Operation::Create, stderr) == FailureKind::BranchExists {
                (Stage::Retrying, silent(run(workdir, add_existing_args(name, path))))
            } else {
                stopped(reported("Failed to create worktree: "@, stderr))
            },
            (Stage::Retrying, EventView::Exited { success, stdout, stderr }) => if success {
                (
                    Stage::Done,
                    ActionView {
                        say: done_line("Created"@, name, path),
                        request: RequestView::Finish,
                    },
                )
            } else {
                stopped(reported("Failed to create worktree: "@, stderr))
            },
            (Stage::Running, EventView::LaunchFailed { reason }) => stopped(
                not_started("Failed to execute git worktree command"@),
            ),
            (Stage::Retrying, EventView::LaunchFailed { reason }) => stopped(
                not_started("Failed to execute git worktree command"@),
            ),
            _ => stopped(ErrorView::UnexpectedEvent),
        }
    }
}

/// The line that says a removal is tried again with force.
pub open spec fn forcing_line() -> Seq<PieceView> {
    seq![plain("Worktree contains uncommitted changes, removing with --force\n"@)]
}

/// One step of removing the working copy `name`. It must be at its path.
/// The removal is asked for plainly; where the tool reports changed or
/// untracked files, it is asked for again with force. Every other failure
/// ends the operation, as does a failure of the second try.
pub open spec fn remove_step(workdir: Seq<char>, name: Seq<char>, stage: Stage, event: EventView)
    -> (Stage, ActionView) {
    let path = worktree_path(workdir, name);
    if !awaited(stage, event) {
        stopped(ErrorView::UnexpectedEvent)
    } else if name.len() == 0 {
        stopped(ErrorView::EmptyName)
    } else {
        match (stage, event) {
            (Stage::Start, EventView::Begin) => (
                Stage::Probing,
                silent(RequestView::Probe { path }),
            ),
            (Stage::Probing, EventView::Probed { exists }) => if exists {
                (Stage::Running, silent(run(workdir, remove_args(path, false))))
            } else {
                stopped(ErrorView::NotFound { name, place: Some(path) })
            },
            (Stage::Running, EventView::Exited { success, stdout, stderr }) => if success {
                (
                    Stage::Done,
                    ActionView {
                        say: done_line("Removed"@, name, path),
                        request: RequestView::Finish,
                    },
                )
            } else if failure_kind(Operation::Remove, stderr)
                == FailureKind::HasUncommittedChanges {
                (
                    Stage::Retrying,
                    ActionView {
                        say: forcing_line(),
                        request: run(workdir, remove_args(path, true)),
                    },
                )
            } else {
                stopped(reported("Failed to remove worktree: "@, stderr))
            },
            (Stage::Retrying, EventView::Exited { success, stdout, stderr }) => if success {
                (
                    Stage::Done,
                    ActionView {
                        say: done_line("Removed"@, name, path),
                        request: RequestView::Finish,
                    },
                )
            } else {
                stopped(reported("Failed to remove worktree: "@, stderr))
            },
            (Stage::Running, EventView::LaunchFailed { reason }) => stopped(
                not_started("Failed to execute git worktree remove command"@),
            ),
            (Stage::Retrying, EventView::LaunchFailed { reason }) => stopped(
                not_started("Failed to execute git worktree remove command"@),
            ),
            _ => stopped(ErrorView::UnexpectedEvent),
        }
    }
}

/// One step of the switch to the working copy `name`: where it is at its
/// path, the command that takes a shell there is said. Nothing is run and
/// nothing is changed.
pub open spec fn switch_step(workdir: Seq<char>, name: Seq<char>, stage: Stage, event: EventView)
    -> (Stage, ActionView) {
    let path = worktree_path(workdir, name);
    match (stage, event) {
        (Stage::Start, EventView::Begin) => if name.len() == 0 {
            stopped(ErrorView::EmptyName)
        } else {
            (Stage::Probing, silent(RequestView::Probe { path }))
        },
        (Stage::Probing, EventView::Probed { exists }) => if name.len() == 0 {
            stopped(ErrorView::EmptyName)
        } else if exists {
            (
                Stage::Done,
                ActionView {
                    say: seq![plain("cd "@ + path + "\n"@)],
                    request: RequestView::Finish,
                },
            )
        } else {
            stopped(ErrorView::NotFound { name, place: None })
        },
        _ => stopped(ErrorView::UnexpectedEvent),
    }
}

/// Making a working copy ends: each step leaves fewer steps to take, and
/// the operation is over exactly when the request is to finish or to fail.
/// What a second try asks for is never asked again.
pub proof fn lemma_create_ends(workdir: Seq<char>, name: Seq<char>, stage: Stage, event: EventView)
    ensures
        stage != Stage::Done ==> steps_left(create_step(workdir, name, stage, event).0)
            < steps_left(stage),
        create_step(workdir, name, stage, event).0 == Stage::Done <==> is_final(
            create_step(workdir, name, stage, event).1.request,
        ),
        stage == Stage::Retrying ==> is_final(create_step(workdir, name, stage, event).1.request),
{
}

/// Making a working copy is tried a second time only after the first try
/// failed on a branch that exists, and nothing is asked of the tool while
/// something is at the path.
pub proof fn lemma_create_retries_once(
    workdir: Seq<char>,
    name: Seq<char>,
    stage: Stage,
    event: EventView,
)
    ensures
        create_step(workdir, name, stage, event).0 == Stage::Retrying <==> name.len() > 0 && stage
            == Stage::Running && event is Exited && !event->success && failure_kind(
            Operation::Create,
            event->stderr,
        ) == FailureKind::BranchExists,
        create_step(workdir, name, stage, event).0 == Stage::Running <==> name.len() > 0 && stage
            == Stage::Probing && event == (EventView::Probed { exists: false }),
        create_step(workdir, name, stage, event).1.request is Run ==> create_step(
            workdir,
            name,
            stage,
            event,
        ).0 == Stage::Running || create_step(workdir, name, stage, event).0 == Stage::Retrying,
{
}

/// Removing a working copy ends: each step leaves fewer steps to take, and
/// the operation is over exactly when the request is to finish or to fail.
/// What a second try asks for is never asked again.
pub proof fn lemma_remove_ends(workdir: Seq<char>, name: Seq<char>, stage: Stage, event: EventView)
    ensures
        stage != Stage::Done ==> steps_left(remove_step(workdir, name, stage, event).0)
            < steps_left(stage),
        remove_step(workdir, name, stage, event).0 == Stage::Done <==> is_final(
            remove_step(workdir, name, stage, event).1.request,
        ),
        stage == Stage::Retrying ==> is_final(remove_step(workdir, name, stage, event).1.request),
{
}

/// Removing a working copy is tried a second time only after the first try
/// failed on changed or untracked files, and nothing is asked of the tool
/// while nothing is at the path.
pub proof fn lemma_remove_retries_once(
    workdir: Seq<char>,
    name: Seq<char>,
    stage: Stage,
    event: EventView,
)
    ensures
        remove_step(workdir, name, stage, event).0 == Stage::Retrying <==> name.len() > 0 && stage
            == Stage::Running && event is Exited && !event->success && failure_kind(
            Operation::Remove,
            event->stderr,
        ) == FailureKind::HasUncommittedChanges,
        remove_step(workdir, name, stage, event).0 == Stage::Running <==> name.len() > 0 && stage
            == Stage::Probing && event == (EventView::Probed { exists: true }),
        remove_step(workdir, name, stage, event).1.request is Run ==> remove_step(
            workdir,
            name,
            stage,
            event,
        ).0 == Stage::Running || remove_step(workdir, name, stage, event).0 == Stage::Retrying,
{
}

/// A switch asks nothing of the tool, and ends after the path was looked
/// for.
pub proof fn lemma_switch_runs_nothing(
    workdir: Seq<char>,
    name: Seq<char>,
    stage: Stage,
    event: EventView,
)
    ensures
        !(switch_step(workdir, name, stage, event).1.request is Run),
        stage != Stage::Done ==> steps_left(switch_step(workdir, name, stage, event).0)
            < steps_left(stage),
        switch_step(workdir, name, stage, event).0 == Stage::Done <==> is_final(
            switch_step(workdir, name, stage, event).1.request,
        ),
{
}

/// The operation ends well after the line that tells what was done.
fn done(verb: &str, name: &str, path: &str) -> (r: (Stage, Action))
    ensures
        r.0 == Stage::Done,
        r.1@ == (ActionView { say: done_line(verb@, name@, path@), request: RequestView::Finish }),
{
    let mut text = String::from_str(verb);
    text.append(" worktree '");
    text.append(name);
    text.append("' at ");
    text.append(quote(path).as_str());
    text.append("\n");
    let mut say: Vec<Piece> = Vec::new();
    assert(pieces(say@) =~= Seq::<PieceView>::empty());
    say_out(&mut say, Tint::Plain, text);
    (Stage::Done, Action { say, request: Request::Finish })
}

/// The operation ends because the tool reported failure with `stderr`.
fn stop_reported(prefix: &str, stderr: &str) -> (r: (Stage, Action))
    ensures
        r.0 == stopped(reported(prefix@, stderr@)).0,
        r.1@ == stopped(reported(prefix@, stderr@)).1,
{
    let mut text = String::from_str(prefix);
    text.append(stderr);
    stop(WorktreeError::SubprocessReportedFailure { text })
}

/// The operation ends because the tool could not be started.
fn stop_not_started(context: &str) -> (r: (Stage, Action))
    ensures
        r.0 == stopped(not_started(context@)).0,
        r.1@ == stopped(not_started(context@)).1,
{
    stop(WorktreeError::SubprocessLaunchFailure { context: String::from_str(context) })
}

/// One step of making the working copy `worktree_name`. The first step
/// takes `Stage::Start` and `Event::Begin`; each further step takes the
/// stage that the step before returned and the event that answers its
/// request, until the request is to finish or to fail.
pub fn create_worktree(repo: &RepositoryHandle, worktree_name: &str, stage: Stage, event: &Event)
    -> (r: (Stage, Action))
    ensures
        r.0 == create_step(repo@.workdir, worktree_name@, stage, event@).0,
        r.1@ == create_step(repo@.workdir, worktree_name@, stage, event@).1,
{
    let name = worktree_name;
    let dir = repo.workdir();
    match (stage, event) {
        (Stage::Start, Event::Begin) => match resolve(repo, name) {
            Ok(path) => (Stage::Probing, quietly(Request::Probe { path })),
            Err(error) => stop(error),
        },
        (Stage::Probing, Event::Probed { exists }) => match resolve(repo, name) {
            Ok(path) => {
                if *exists {
                    stop(WorktreeError::AlreadyExists { name: String::from_str(name), path })
                } else {
                    let args = add_new_command(name, path.as_str());
                    (
                        Stage::Running,
                        quietly(Request::Run { dir: String::from_str(dir), args }),
                    )
                }
            },
            Err(error) => stop(error),
        },
        (Stage::Running, Event::Exited { success, stdout, stderr }) => match resolve(repo, name) {
            Ok(path) => {
                if *success {
                    done("Created", name, path.as_str())
                } else if classify_failure(Operation::Create, stderr.as_str())
                    == FailureKind::BranchExists {
                    let args = add_existing_command(name, path.as_str());
                    (
                        Stage::Retrying,
                        quietly(Request::Run { dir: String::from_str(dir), args }),
                    )
                } else {
                    stop_reported("Failed to create worktree: ", stderr.as_str())
                }
            },
            Err(error) => stop(error),
        },
        (Stage::Retrying, Event::Exited { success, stdout, stderr }) => match resolve(repo, name) {
            Ok(path) => {
                if *success {
                    done("Created", name, path.as_str())
                } else {
                    stop_reported("Failed to create worktree: ", stderr.as_str())
                }
            },
            Err(error) => stop(error),
        },
        (Stage::Running, Event::LaunchFailed { reason }) => match resolve(repo, name) {
            Ok(_) => stop_not_started("Failed to execute git worktree command"),
            Err(error) => stop(error),
        },
        (Stage::Retrying, Event::LaunchFailed { reason }) => match resolve(repo, name) {
            Ok(_) => stop_not_started("Failed to execute git worktree command"),
            Err(error) => stop(error),
        },
        _ => stop(WorktreeError::UnexpectedEvent),
    }
}

/// One step of removing the working copy `worktree_name`. The first step
/// takes `Stage::Start` and `Event::Begin`; each further step takes the
/// stage that the step before returned and the event that answers its
/// request, until the request is to finish or to fail.
pub fn remove_worktree(repo: &RepositoryHandle, worktree_name: &str, stage: Stage, event: &Event)
    -> (r: (Stage, Action))
    ensures
        r.0 == remove_step(repo@.workdir, worktree_name@, stage, event@).0,
        r.1@ == remove_step(repo@.workdir, worktree_name@, stage, event@).1,
{
    let name = worktree_name;
    let dir = repo.workdir();
    match (stage, event) {
        (Stage::Start, Event::Begin) => match resolve(repo, name) {
            Ok(path) => (Stage::Probing, quietly(Request::Probe { path })),
            Err(error) => stop(error),
        },
        (Stage::Probing, Event::Probed { exists }) => match resolve(repo, name) {
            Ok(path) => {
                if *exists {
                    let args = remove_command(path.as_str(), false);
                    (
                        Stage::Running,
                        quietly(Request::Run { dir: String::from_str(dir), args }),
                    )
                } else {
                    stop(
                        WorktreeError::NotFound {
                            name: String::from_str(name),
                            place: Some(path),
                        },
                    )
                }
            },
            Err(error) => stop(error),
        },
        (Stage::Running, Event::Exited { success, stdout, stderr }) => match resolve(repo, name) {
            Ok(path) => {
                if *success {
                    done("Removed", name, path.as_str())
                } else if classify_failure(Operation::Remove, stderr.as_str())
                    == FailureKind::HasUncommittedChanges {
                    let mut say: Vec<Piece> = Vec::new();
                    assert(pieces(say@) =~= Seq::<PieceView>::empty());
                    say_plain(
                        &mut say,
                        "Worktree contains uncommitted changes, removing with --force\n",
                    );
                    let args = remove_command(path.as_str(), true);
                    (
                        Stage::Retrying,
                        Action { say, request: Request::Run { dir: String::from_str(dir), args } },
                    )
                } else {
                    stop_reported("Failed to remove worktree: ", stderr.as_str())
                }
            },
            Err(error) => stop(error),
        },
        (Stage::Retrying, Event::Exited { success, stdout, stderr }) => match resolve(repo, name) {
            Ok(path) => {
                if *success {
                    done("Removed", name, path.as_str())
                } else {
                    stop_reported("Failed to remove worktree: ", stderr.as_str())
                }
            },
            Err(error) => stop(error),
        },
        (Stage::Running, Event::LaunchFailed { reason }) => match resolve(repo, name) {
            Ok(_) => stop_not_started("Failed to execute git worktree remove command"),
            Err(error) => stop(error),
        },
        (Stage::Retrying, Event::LaunchFailed { reason }) => match resolve(repo, name) {
            Ok(_) => stop_not_started("Failed to execute git worktree remove command"),
            Err(error) => stop(error),
        },
        _ => stop(WorktreeError::UnexpectedEvent),
    }
}

/// One step of the switch to the working copy `worktree_name`. The first
/// step takes `Stage::Start` and `Event::Begin`; the second the stage that
/// the first returned and the event that answers its request.
pub fn switch_to_worktree(
    repo: &RepositoryHandle,
    worktree_name: &str,
    stage: Stage,
    event: &Event,
) -> (r: (Stage, Action))
    ensures
        r.0 == switch_step(repo@.workdir, worktree_name@, stage, event@).0,
        r.1@ == switch_step(repo@.workdir, worktree_name@, stage, event@).1,
{
    let name = worktree_name;
    match (stage, event) {
        (Stage::Start, Event::Begin) => match resolve(repo, name) {
            Ok(path) => (Stage::Probing, quietly(Request::Probe { path })),
            Err(error) => stop(error),
        },
        (Stage::Probing, Event::Probed { exists }) => match resolve(repo, name) {
            Ok(path) => {
                if *exists {
                    let mut text = String::from_str("cd ");
                    text.append(path.as_str());
                    text.append("\n");
                    let mut say: Vec<Piece> = Vec::new();
                    assert(pieces(say@) =~= Seq::<PieceView>::empty());
                    say_out(&mut say, Tint::Plain, text);
                    (Stage::Done, Action { say, request: Request::Finish })
                } else {
                    stop(WorktreeError::NotFound { name: String::from_str(name), place: None })
                }
            },
            Err(error) => stop(error),
        },
        _ => stop(WorktreeError::UnexpectedEvent),
    }
}

} // verus!
