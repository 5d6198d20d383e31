use gwtr::{
    create_worktree, list_worktrees, plain_text, prune_merged_worktrees, pull_all_worktrees,
    pull_current_worktree, pull_worktree, remove_worktree, show_worktrees_status,
    switch_to_worktree,
};
use gwtr::{
    Action, Event, Hue, Piece, PruneCandidate, PruneStage, PruneState, RepositoryHandle, Request,
    Stage, Stream, Tint, Walk, WalkStage, WorktreeError, WorktreeRecord,
};

fn repo() -> RepositoryHandle {
    RepositoryHandle::new("/srv/code/tool/").unwrap()
}

fn exited(success: bool, stdout: &str, stderr: &str) -> Event {
    Event::Exited { success, stdout: stdout.to_string(), stderr: stderr.to_string() }
}

fn not_started() -> Event {
    Event::LaunchFailed { reason: "No such file or directory (os error 2)".to_string() }
}

fn strings(args: &[&str]) -> Vec<String> {
    args.iter().map(|a| a.to_string()).collect()
}

fn run(dir: &str, args: &[&str]) -> Request {
    Request::Run { dir: dir.to_string(), args: strings(args) }
}

fn silent(request: Request) -> Action {
    Action { say: Vec::new(), request }
}

fn fails(error: WorktreeError) -> Action {
    silent(Request::Fail { error })
}

fn plain(text: &str) -> Piece {
    Piece { stream: Stream::Stdout, tint: Tint::Plain, text: text.to_string() }
}

fn colored(hue: Hue, text: &str) -> Piece {
    Piece { stream: Stream::Stdout, tint: Tint::Colored(hue), text: text.to_string() }
}

fn record(path: &str, branch: Option<&str>, is_bare: bool, is_main: bool) -> WorktreeRecord {
    WorktreeRecord {
        path: path.to_string(),
        branch: branch.map(|b| b.to_string()),
        is_bare,
        is_main,
    }
}

const LISTING: &str = "worktree /srv/code/tool\nHEAD 1\nbranch refs/heads/main\n\n\
                       worktree /srv/code/tool_one\nHEAD 2\nbranch refs/heads/one\n\n\
                       worktree /srv/mirror.git\nbare\n\n\
                       worktree /srv/code/tool_two\nHEAD 3\ndetached\n\n";

fn listed() -> Vec<WorktreeRecord> {
    vec![
        record("/srv/code/tool", Some("main"), false, true),
        record("/srv/code/tool_one", Some("one"), false, false),
        record("/srv/mirror.git", None, true, false),
        record("/srv/code/tool_two", None, false, false),
    ]
}

#[test]
fn create_probes_then_adds_on_a_new_branch() {
    let repo = repo();
    let (stage, action) = create_worktree(&repo, "fix", Stage::Start, &Event::Begin);
    assert_eq!(stage, Stage::Probing);
    assert_eq!(action, silent(Request::Probe { path: "/srv/code/tool_fix".to_string() }));

    let probed = Event::Probed { exists: false };
    let (stage, action) = create_worktree(&repo, "fix", stage, &probed);
    assert_eq!(stage, Stage::Running);
    assert_eq!(
        action,
        silent(run("/srv/code/tool/", &["worktree", "add", "-b", "fix", "/srv/code/tool_fix"]))
    );

    let (stage, action) = create_worktree(&repo, "fix", stage, &exited(true, "", "Preparing"));
    assert_eq!(stage, Stage::Done);
    assert_eq!(
        action,
        Action {
            say: vec![plain("Created worktree 'fix' at \"/srv/code/tool_fix\"\n")],
            request: Request::Finish
        }
    );
}

#[test]
fn create_retries_only_when_the_branch_exists() {
    let repo = repo();
    let taken = exited(false, "", "fatal: a branch named 'fix' already exists\n");
    let (stage, action) = create_worktree(&repo, "fix", Stage::Running, &taken);
    assert_eq!(stage, Stage::Retrying);
    assert_eq!(
        action,
        silent(run("/srv/code/tool/", &["worktree", "add", "/srv/code/tool_fix", "fix"]))
    );

    let (stage, action) = create_worktree(&repo, "fix", Stage::Retrying, &taken);
    assert_eq!(stage, Stage::Done);
    assert_eq!(
        action,
        fails(WorktreeError::SubprocessReportedFailure {
            text: "Failed to create worktree: fatal: a branch named 'fix' already exists\n"
                .to_string()
        })
    );

    let other = exited(false, "", "fatal: invalid reference: HEAD\n");
    let (stage, action) = create_worktree(&repo, "fix", Stage::Running, &other);
    assert_eq!(stage, Stage::Done);
    assert_eq!(
        action,
        fails(WorktreeError::SubprocessReportedFailure {
            text: "Failed to create worktree: fatal: invalid reference: HEAD\n".to_string()
        })
    );

    let (stage, action) = create_worktree(&repo, "fix", Stage::Retrying, &exited(true, "", ""));
    assert_eq!(stage, Stage::Done);
    assert_eq!(action.request, Request::Finish);
}

#[test]
fn create_stops_when_something_is_at_the_path() {
    let (stage, action) =
        create_worktree(&repo(), "fix", Stage::Probing, &Event::Probed { exists: true });
    assert_eq!(stage, Stage::Done);
    assert_eq!(
        action,
        fails(WorktreeError::AlreadyExists {
            name: "fix".to_string(),
            path: "/srv/code/tool_fix".to_string()
        })
    );
}

#[test]
fn a_tool_that_does_not_start_ends_the_operation() {
    let repo = repo();
    let launch = |context: &str| {
        fails(WorktreeError::SubprocessLaunchFailure { context: context.to_string() })
    };
    for stage in [Stage::Running, Stage::Retrying] {
        let (next, action) = create_worktree(&repo, "fix", stage, &not_started());
        assert_eq!(next, Stage::Done);
        assert_eq!(action, launch("Failed to execute git worktree command"));
        let (next, action) = remove_worktree(&repo, "fix", stage, &not_started());
        assert_eq!(next, Stage::Done);
        assert_eq!(action, launch("Failed to execute git worktree remove command"));
    }
    let (next, action) = pull_worktree(&repo, "fix", Stage::Running, &not_started());
    assert_eq!(next, Stage::Done);
    assert_eq!(action, launch("Failed to execute git pull command"));
    let (next, action) = pull_current_worktree(&repo, Stage::Running, &not_started());
    assert_eq!(next, Stage::Done);
    assert_eq!(action, launch("Failed to execute git pull command"));
    let (next, action) = list_worktrees(&repo, Stage::Running, &not_started());
    assert_eq!(next, Stage::Done);
    assert_eq!(action, launch("Failed to execute git worktree list command"));

    let mut walk = Walk::new();
    walk.stage = WalkStage::Listing;
    let (next, action) = show_worktrees_status(&repo, walk, &not_started());
    assert_eq!(next.stage, WalkStage::Done);
    assert_eq!(action, launch("Failed to execute git worktree list command"));
    let mut walk = Walk::new();
    walk.stage = WalkStage::Listing;
    let (next, action) = pull_all_worktrees(&repo, walk, &not_started());
    assert_eq!(next.stage, WalkStage::Done);
    assert_eq!(action, launch("Failed to execute git worktree list command"));

    let mut state = PruneState::new();
    state.stage = PruneStage::Listing;
    let (next, action) = prune_merged_worktrees(&repo, false, false, state, &not_started());
    assert_eq!(next.stage, PruneStage::Done);
    assert_eq!(action, launch("Failed to execute git worktree list command"));
}

#[test]
fn a_listing_that_fails_ends_the_operation() {
    let repo = repo();
    let failed = exited(false, "", "fatal: not a git repository\n");
    let error = || {
        fails(WorktreeError::SubprocessReportedFailure {
            text: "Failed to list worktrees: fatal: not a git repository\n".to_string(),
        })
    };
    let (next, action) = list_worktrees(&repo, Stage::Running, &failed);
    assert_eq!((next, action), (Stage::Done, error()));
    let mut walk = Walk::new();
    walk.stage = WalkStage::Listing;
    assert_eq!(show_worktrees_status(&repo, walk, &failed).1, error());
    let mut walk = Walk::new();
    walk.stage = WalkStage::Listing;
    assert_eq!(pull_all_worktrees(&repo, walk, &failed).1, error());
    let mut state = PruneState::new();
    state.stage = PruneStage::Listing;
    assert_eq!(prune_merged_worktrees(&repo, true, true, state, &failed).1, error());
}

#[test]
fn an_event_out_of_turn_is_refused() {
    let repo = repo();
    let unexpected = || fails(WorktreeError::UnexpectedEvent);
    let events = [
        Event::Begin,
        Event::Probed { exists: true },
        exited(true, "", ""),
        not_started(),
        Event::Answered { line: "y".to_string() },
    ];
    for (i, event) in events.iter().enumerate() {
        let done = Stage::Done;
        assert_eq!(create_worktree(&repo, "x", done, event), (done, unexpected()));
        assert_eq!(remove_worktree(&repo, "x", done, event), (done, unexpected()));
        assert_eq!(switch_to_worktree(&repo, "x", done, event), (done, unexpected()));
        assert_eq!(pull_worktree(&repo, "x", done, event), (done, unexpected()));
        assert_eq!(pull_current_worktree(&repo, done, event), (done, unexpected()));
        assert_eq!(list_worktrees(&repo, done, event), (done, unexpected()));
        if i != 0 {
            let start = Stage::Start;
            assert_eq!(create_worktree(&repo, "x", start, event), (done, unexpected()));
            assert_eq!(remove_worktree(&repo, "x", start, event), (done, unexpected()));
            assert_eq!(switch_to_worktree(&repo, "x", start, event), (done, unexpected()));
            assert_eq!(pull_worktree(&repo, "x", start, event), (done, unexpected()));
            assert_eq!(pull_current_worktree(&repo, start, event), (done, unexpected()));
            assert_eq!(list_worktrees(&repo, start, event), (done, unexpected()));
            assert_eq!(show_worktrees_status(&repo, Walk::new(), event).1, unexpected());
            assert_eq!(pull_all_worktrees(&repo, Walk::new(), event).1, unexpected());
            let state = PruneState::new();
            assert_eq!(
                prune_merged_worktrees(&repo, false, false, state, event).1,
                unexpected()
            );
        }
        if i != 1 {
            let probing = Stage::Probing;
            assert_eq!(create_worktree(&repo, "x", probing, event), (done, unexpected()));
            assert_eq!(remove_worktree(&repo, "x", probing, event), (done, unexpected()));
            assert_eq!(switch_to_worktree(&repo, "x", probing, event), (done, unexpected()));
            assert_eq!(pull_worktree(&repo, "x", probing, event), (done, unexpected()));
        }
    }
    let answered = Event::Answered { line: "y".to_string() };
    assert_eq!(switch_to_worktree(&repo, "x", Stage::Running, &answered), (Stage::Done, unexpected()));
    assert_eq!(switch_to_worktree(&repo, "x", Stage::Running, &exited(true, "", "")).1, unexpected());
}

#[test]
fn remove_probes_removes_and_forces_once() {
    let repo = repo();
    let (stage, action) = remove_worktree(&repo, "old", Stage::Start, &Event::Begin);
    assert_eq!(stage, Stage::Probing);
    assert_eq!(action, silent(Request::Probe { path: "/srv/code/tool_old".to_string() }));

    let (stage, action) = remove_worktree(&repo, "old", stage, &Event::Probed { exists: true });
    assert_eq!(stage, Stage::Running);
    assert_eq!(action, silent(run("/srv/code/tool/", &["worktree", "remove", "/srv/code/tool_old"])));

    let dirty = exited(
        false,
        "",
        "fatal: '/srv/code/tool_old' contains modified or untracked files, use --force to delete it\n",
    );
    let (stage, action) = remove_worktree(&repo, "old", stage, &dirty);
    assert_eq!(stage, Stage::Retrying);
    assert_eq!(
        action,
        Action {
            say: vec![plain("Worktree contains uncommitted changes, removing with --force\n")],
            request: run(
                "/srv/code/tool/",
                &["worktree", "remove", "--force", "/srv/code/tool_old"]
            ),
        }
    );

    let (next, action) = remove_worktree(&repo, "old", stage, &dirty);
    assert_eq!(next, Stage::Done);
    assert!(matches!(
        action.request,
        Request::Fail { error: WorktreeError::SubprocessReportedFailure { .. } }
    ));

    let (next, action) = remove_worktree(&repo, "old", stage, &exited(true, "", ""));
    assert_eq!(next, Stage::Done);
    assert_eq!(
        action,
        Action {
            say: vec![plain("Removed worktree 'old' at \"/srv/code/tool_old\"\n")],
            request: Request::Finish
        }
    );
}

#[test]
fn switch_says_where_to_go() {
    let repo = repo();
    let (stage, action) = switch_to_worktree(&repo, "fix", Stage::Start, &Event::Begin);
    assert_eq!(stage, Stage::Probing);
    assert_eq!(action, silent(Request::Probe { path: "/srv/code/tool_fix".to_string() }));
    let (next, action) =
        switch_to_worktree(&repo, "fix", stage, &Event::Probed { exists: true });
    assert_eq!(next, Stage::Done);
    assert_eq!(
        action,
        Action { say: vec![plain("cd /srv/code/tool_fix\n")], request: Request::Finish }
    );
    let (next, action) =
        switch_to_worktree(&repo, "fix", stage, &Event::Probed { exists: false });
    assert_eq!(next, Stage::Done);
    assert_eq!(
        action,
        fails(WorktreeError::NotFound { name: "fix".to_string(), place: None })
    );
}

#[test]
fn pull_of_a_named_worktree() {
    let repo = repo();
    let (stage, action) = pull_worktree(&repo, "fix", Stage::Start, &Event::Begin);
    assert_eq!(stage, Stage::Probing);
    assert_eq!(action, silent(Request::Probe { path: "/srv/code/tool_fix".to_string() }));
    let (stage, action) = pull_worktree(&repo, "fix", stage, &Event::Probed { exists: true });
    assert_eq!(stage, Stage::Running);
    assert_eq!(
        action,
        Action {
            say: vec![plain("Pulling worktree 'fix' from origin/main...\n")],
            request: run("/srv/code/tool_fix", &["pull", "origin", "main"]),
        }
    );
    let updated = exited(true, "Updating 1..2\nFast-forward\n", "");
    let (next, action) = pull_worktree(&repo, "fix", stage, &updated);
    assert_eq!(next, Stage::Done);
    assert_eq!(
        action,
        Action {
            say: vec![
                colored(Hue::Yellow, "fix"),
                plain(": "),
                colored(Hue::Green, "Updated"),
                plain("\n")
            ],
            request: Request::Finish,
        }
    );
    let failed = exited(false, "", "fatal: refusing to merge unrelated histories\n");
    let (next, action) = pull_worktree(&repo, "fix", stage, &failed);
    assert_eq!(next, Stage::Done);
    assert_eq!(
        action,
        fails(WorktreeError::SubprocessReportedFailure {
            text: "Failed to pull worktree 'fix': fatal: refusing to merge unrelated histories\n"
                .to_string()
        })
    );
    let (_, action) = pull_current_worktree(&repo, stage, &failed);
    assert_eq!(
        action,
        fails(WorktreeError::SubprocessReportedFailure {
            text: "Failed to pull: fatal: refusing to merge unrelated histories\n".to_string()
        })
    );
    let no_remote = exited(false, "", "error: Could not find remote branch main\n");
    assert_eq!(pull_worktree(&repo, "fix", stage, &no_remote).1, fails(WorktreeError::RemoteMissing));
    assert_eq!(pull_current_worktree(&repo, stage, &no_remote).1, fails(WorktreeError::RemoteMissing));
}

#[test]
fn list_shows_each_record() {
    let repo = repo();
    let (stage, action) = list_worktrees(&repo, Stage::Start, &Event::Begin);
    assert_eq!(stage, Stage::Running);
    assert_eq!(action, silent(run("/srv/code/tool/", &["worktree", "list", "--porcelain"])));
    let (next, action) = list_worktrees(&repo, stage, &exited(true, LISTING, ""));
    assert_eq!(next, Stage::Done);
    assert_eq!(action.request, Request::Finish);
    assert_eq!(
        action.say,
        vec![
            Piece { stream: Stream::Stdout, tint: Tint::Bold, text: "Worktrees:".to_string() },
            plain("\n"),
            plain("  "),
            colored(Hue::Green, "/srv/code/tool (main)"),
            plain(" ["),
            colored(Hue::Cyan, "main"),
            plain("]\n"),
            plain("  "),
            colored(Hue::Yellow, "/srv/code/tool_one"),
            plain(" ["),
            colored(Hue::Cyan, "one"),
            plain("]\n"),
            plain("  "),
            colored(Hue::Yellow, "/srv/mirror.git"),
            plain(" [bare]\n"),
            plain("  "),
            colored(Hue::Yellow, "/srv/code/tool_two"),
            plain(" ["),
            colored(Hue::Cyan, "detached"),
            plain("]\n"),
        ]
    );
    let (next, action) = list_worktrees(&repo, stage, &exited(true, "", ""));
    assert_eq!(next, Stage::Done);
    assert_eq!(
        action,
        Action { say: vec![plain("No worktrees found\n")], request: Request::Finish }
    );
    let (_, action) = list_worktrees(&repo, stage, &exited(true, "nothing of use\n", ""));
    assert_eq!(plain_text(&action.say, Stream::Stdout), "Worktrees:\n");
}

#[test]
fn status_checks_each_directory_but_the_bare_one() {
    let repo = repo();
    let (walk, action) = show_worktrees_status(&repo, Walk::new(), &Event::Begin);
    assert_eq!(walk.stage, WalkStage::Listing);
    assert_eq!(action, silent(run("/srv/code/tool/", &["worktree", "list", "--porcelain"])));

    let (walk, action) = show_worktrees_status(&repo, walk, &exited(true, LISTING, ""));
    assert_eq!(walk, Walk { stage: WalkStage::Visiting, records: listed(), next: 0 });
    assert_eq!(plain_text(&action.say, Stream::Stdout), "Worktrees:\n");
    assert_eq!(action.request, run("/srv/code/tool", &["status", "--porcelain"]));

    let (walk, action) = show_worktrees_status(&repo, walk, &exited(true, "", ""));
    assert_eq!(walk, Walk { stage: WalkStage::Visiting, records: listed(), next: 1 });
    assert_eq!(
        action.say,
        vec![
            plain("  "),
            colored(Hue::Green, "/srv/code/tool (main)"),
            plain(" ["),
            colored(Hue::Cyan, "main"),
            plain("] - "),
            colored(Hue::Green, "clean"),
            plain("\n"),
        ]
    );
    assert_eq!(action.request, run("/srv/code/tool_one", &["status", "--porcelain"]));

    let (walk, action) = show_worktrees_status(&repo, walk, &exited(true, " M a\n?? b\n", ""));
    assert_eq!(walk, Walk { stage: WalkStage::Visiting, records: listed(), next: 3 });
    assert_eq!(
        plain_text(&action.say, Stream::Stdout),
        "  /srv/code/tool_one [one] - 2 uncommitted changes\n"
    );
    assert_eq!(action.say[5], colored(Hue::Yellow, "2 uncommitted changes"));
    assert_eq!(action.request, run("/srv/code/tool_two", &["status", "--porcelain"]));

    let (walk, action) = show_worktrees_status(&repo, walk, &exited(false, "", "fatal"));
    assert_eq!(walk, Walk { stage: WalkStage::Done, records: listed(), next: 4 });
    assert_eq!(
        plain_text(&action.say, Stream::Stdout),
        "  /srv/code/tool_two [detached] - error\n"
    );
    assert_eq!(action.say[5], colored(Hue::Red, "error"));
    assert_eq!(action.request, Request::Finish);
}

#[test]
fn status_of_a_directory_that_cannot_be_checked_is_unknown() {
    let repo = repo();
    let walk = Walk { stage: WalkStage::Visiting, records: listed(), next: 3 };
    let (walk, action) = show_worktrees_status(&repo, walk, &not_started());
    assert_eq!(walk.stage, WalkStage::Done);
    assert_eq!(action.say[5], colored(Hue::Red, "unknown"));
    assert_eq!(action.request, Request::Finish);
}

#[test]
fn status_of_bare_repositories_only_checks_nothing() {
    let repo = repo();
    let walk = Walk { stage: WalkStage::Listing, records: Vec::new(), next: 0 };
    let listing = "worktree /srv/a.git\nbare\n\nworktree /srv/b.git\nbare\n";
    let (walk, action) = show_worktrees_status(&repo, walk, &exited(true, listing, ""));
    assert_eq!(walk.stage, WalkStage::Done);
    assert_eq!(walk.next, 2);
    assert_eq!(plain_text(&action.say, Stream::Stdout), "Worktrees:\n");
    assert_eq!(action.request, Request::Finish);
}

#[test]
fn pull_all_visits_every_record_in_order() {
    let repo = repo();
    let (walk, action) = pull_all_worktrees(&repo, Walk::new(), &Event::Begin);
    assert_eq!(walk.stage, WalkStage::Listing);
    assert_eq!(
        action,
        Action {
            say: vec![plain("Pulling all worktrees from origin/main...\n")],
            request: run("/srv/code/tool/", &["worktree", "list", "--porcelain"]),
        }
    );

    let (walk, action) = pull_all_worktrees(&repo, walk, &exited(true, LISTING, ""));
    assert_eq!(walk, Walk { stage: WalkStage::Visiting, records: listed(), next: 0 });
    assert_eq!(
        action.say,
        vec![
            plain("  "),
            colored(Hue::Yellow, "main"),
            plain(" ["),
            colored(Hue::Cyan, "main"),
            plain("]: ")
        ]
    );
    assert_eq!(action.request, run("/srv/code/tool", &["pull", "origin", "main"]));

    let (walk, action) = pull_all_worktrees(&repo, walk, &exited(true, "Already up to date.\n", ""));
    assert_eq!(walk.next, 1);
    assert_eq!(
        action.say,
        vec![
            colored(Hue::Green, "Already up to date"),
            plain("\n"),
            plain("  "),
            colored(Hue::Yellow, "tool_one"),
            plain(" ["),
            colored(Hue::Cyan, "one"),
            plain("]: ")
        ]
    );
    assert_eq!(action.request, run("/srv/code/tool_one", &["pull", "origin", "main"]));

    let failed = exited(false, "", "  fatal: refusing to merge unrelated histories\n\n");
    let (walk, action) = pull_all_worktrees(&repo, walk, &failed);
    assert_eq!(walk.next, 2);
    assert_eq!(action.say[0], colored(Hue::Red, "Failed"));
    assert_eq!(action.say[1], plain(": fatal: refusing to merge unrelated histories\n"));
    assert_eq!(action.say[3], colored(Hue::Yellow, "mirror.git"));
    assert_eq!(action.say[5], colored(Hue::Cyan, "detached"));
    assert_eq!(action.request, run("/srv/mirror.git", &["pull", "origin", "main"]));

    let (walk, action) = pull_all_worktrees(&repo, walk, &not_started());
    assert_eq!(walk.next, 3);
    assert_eq!(action.say[0], colored(Hue::Red, "Error"));
    assert_eq!(action.say[1], plain(": No such file or directory (os error 2)\n"));
    assert_eq!(action.request, run("/srv/code/tool_two", &["pull", "origin", "main"]));

    let no_remote = exited(false, "", "fatal: 'origin' does not appear to be a git repository\n");
    let (walk, action) = pull_all_worktrees(&repo, walk, &no_remote);
    assert_eq!(walk, Walk { stage: WalkStage::Done, records: listed(), next: 4 });
    assert_eq!(
        action,
        Action {
            say: vec![colored(Hue::Yellow, "Skipped"), plain(": No remote configured\n")],
            request: Request::Finish,
        }
    );
}

fn candidate(path: &str, branch: &str, name: &str) -> PruneCandidate {
    PruneCandidate {
        record: record(path, Some(branch), false, false),
        name: name.to_string(),
        merged: true,
    }
}

#[test]
fn prune_finds_the_merged_worktrees_first() {
    let repo = repo();
    let (state, action) = prune_merged_worktrees(&repo, false, false, PruneState::new(), &Event::Begin);
    assert_eq!(state.stage, PruneStage::Listing);
    assert_eq!(action, silent(run("/srv/code/tool/", &["worktree", "list", "--porcelain"])));

    let (state, action) = prune_merged_worktrees(&repo, false, false, state, &exited(true, LISTING, ""));
    assert_eq!(state.stage, PruneStage::Checking);
    assert_eq!(state.records, listed());
    assert_eq!(action, silent(run("/srv/code/tool/", &["branch", "--merged", "main"])));

    let merged = exited(true, "* main\n  one\n", "");
    let (state, action) = prune_merged_worktrees(&repo, false, false, state, &merged);
    assert_eq!(
        state,
        PruneState {
            stage: PruneStage::Confirming,
            records: Vec::new(),
            targets: vec![candidate("/srv/code/tool_one", "one", "one")],
            next: 0,
            removed: 0,
        }
    );
    assert_eq!(
        action,
        Action {
            say: vec![
                plain("Found 1 merged worktree to prune:\n"),
                plain("  "),
                colored(Hue::Yellow, "one"),
                plain(" ["),
                colored(Hue::Cyan, "one"),
                plain("] at /srv/code/tool_one\n"),
                plain("\nPrune these worktrees? [y/N] "),
            ],
            request: Request::Ask,
        }
    );

    let yes = Event::Answered { line: "y\n".to_string() };
    let (state, action) = prune_merged_worktrees(&repo, false, false, state, &yes);
    assert_eq!(state.stage, PruneStage::Removing);
    assert_eq!(
        action,
        Action {
            say: vec![plain("Pruning "), colored(Hue::Yellow, "one"), plain("... ")],
            request: run("/srv/code/tool/", &["worktree", "remove", "/srv/code/tool_one"]),
        }
    );

    let (state, action) = prune_merged_worktrees(&repo, false, false, state, &exited(true, "", ""));
    assert_eq!(state.stage, PruneStage::Done);
    assert_eq!((state.next, state.removed), (1, 1));
    assert_eq!(
        action,
        Action {
            say: vec![colored(Hue::Green, "done"), plain("\n"), plain("\nPruned 1 worktree\n")],
            request: Request::Finish,
        }
    );
}

#[test]
fn prune_without_candidates_asks_for_no_merged_branches() {
    let repo = repo();
    let mut state = PruneState::new();
    state.stage = PruneStage::Listing;
    let listing = "worktree /srv/code/tool\nbranch refs/heads/main\n\nworktree /x\ndetached\n";
    let (state, action) = prune_merged_worktrees(&repo, false, true, state, &exited(true, listing, ""));
    assert_eq!(state.stage, PruneStage::Done);
    assert_eq!(
        action,
        Action { say: vec![plain("No worktrees to prune\n")], request: Request::Finish }
    );
}

#[test]
fn prune_treats_a_failed_check_as_nothing_merged() {
    let repo = repo();
    for answer in [exited(false, "  one\n", "fatal: malformed object name main"), not_started()] {
        let state = PruneState {
            stage: PruneStage::Checking,
            records: listed(),
            targets: Vec::new(),
            next: 0,
            removed: 0,
        };
        let (state, action) = prune_merged_worktrees(&repo, false, true, state, &answer);
        assert_eq!(state.stage, PruneStage::Done);
        assert!(state.targets.is_empty());
        assert_eq!(
            action,
            Action { say: vec![plain("No worktrees to prune\n")], request: Request::Finish }
        );
    }
}

#[test]
fn prune_dry_run_only_shows() {
    let repo = repo();
    let state = PruneState {
        stage: PruneStage::Checking,
        records: listed(),
        targets: Vec::new(),
        next: 0,
        removed: 0,
    };
    let merged = exited(true, "  one\n  two\n* main\n", "");
    let (state, action) = prune_merged_worktrees(&repo, true, true, state, &merged);
    assert_eq!(state.stage, PruneStage::Done);
    assert_eq!(
        plain_text(&action.say, Stream::Stdout),
        "Would prune 1 merged worktree:\n  one [one] at /srv/code/tool_one\n"
    );
    assert_eq!(action.request, Request::Finish);
}

#[test]
fn prune_forces_a_removal_once_and_goes_on_after_a_failure() {
    let repo = repo();
    let targets = || {
        vec![
            candidate("/srv/code/tool_a", "a", "a"),
            candidate("/srv/code/tool_b", "b", "b"),
        ]
    };
    let state = PruneState {
        stage: PruneStage::Removing,
        records: Vec::new(),
        targets: targets(),
        next: 0,
        removed: 0,
    };
    let dirty = exited(false, "", "fatal: '/srv/code/tool_a' contains modified or untracked files\n");
    let (state, action) = prune_merged_worktrees(&repo, false, true, state, &dirty);
    assert_eq!((state.stage, state.next, state.removed), (PruneStage::Forcing, 0, 0));
    assert_eq!(
        action,
        Action {
            say: vec![plain("has uncommitted changes, removing with --force... ")],
            request: run(
                "/srv/code/tool/",
                &["worktree", "remove", "--force", "/srv/code/tool_a"]
            ),
        }
    );

    let (state, action) = prune_merged_worktrees(&repo, false, true, state, &dirty);
    assert_eq!((state.stage, state.next, state.removed), (PruneStage::Removing, 1, 0));
    assert_eq!(
        action,
        Action {
            say: vec![
                colored(Hue::Red, "failed"),
                plain("\n"),
                Piece {
                    stream: Stream::Stderr,
                    tint: Tint::Plain,
                    text: "  Error: fatal: '/srv/code/tool_a' contains modified or untracked files\n"
                        .to_string()
                },
                plain("Pruning "),
                colored(Hue::Yellow, "b"),
                plain("... "),
            ],
            request: run("/srv/code/tool/", &["worktree", "remove", "/srv/code/tool_b"]),
        }
    );

    let (state, action) = prune_merged_worktrees(&repo, false, true, state, &not_started());
    assert_eq!(state.stage, PruneStage::Done);
    assert_eq!(
        action,
        fails(WorktreeError::SubprocessLaunchFailure {
            context: "Failed to execute git worktree remove command".to_string()
        })
    );

    let state = PruneState {
        stage: PruneStage::Removing,
        records: Vec::new(),
        targets: targets(),
        next: 1,
        removed: 0,
    };
    let (state, action) = prune_merged_worktrees(&repo, false, true, state, &exited(false, "", "no\n"));
    assert_eq!((state.stage, state.next, state.removed), (PruneStage::Done, 2, 0));
    assert_eq!(plain_text(&action.say, Stream::Stdout), "failed\n\nPruned 0 worktrees\n");
    assert_eq!(plain_text(&action.say, Stream::Stderr), "  Error: no\n");
    assert_eq!(action.request, Request::Finish);
}

#[test]
fn prune_cancelled_removes_nothing() {
    let repo = repo();
    let state = PruneState {
        stage: PruneStage::Confirming,
        records: Vec::new(),
        targets: vec![candidate("/srv/code/tool_a", "a", "a")],
        next: 0,
        removed: 0,
    };
    let no = Event::Answered { line: "\n".to_string() };
    let (state, action) = prune_merged_worktrees(&repo, false, false, state, &no);
    assert_eq!(state.stage, PruneStage::Done);
    assert_eq!(action, Action { say: vec![plain("Cancelled\n")], request: Request::Finish });
}
