use gwtr::{plain_text, render, Hue, Piece, Stream, Tint, WorktreeError};

fn piece(stream: Stream, tint: Tint, text: &str) -> Piece {
    Piece { stream, tint, text: text.to_string() }
}

#[test]
fn render_paints_when_the_terminal_shows_tints() {
    colored::control::set_override(true);
    let out = |tint, text| render(&piece(Stream::Stdout, tint, text));
    assert_eq!(out(Tint::Plain, "as it is"), "as it is");
    assert_eq!(out(Tint::Bold, "Worktrees:"), "\u{1b}[1mWorktrees:\u{1b}[0m");
    assert_eq!(out(Tint::Colored(Hue::Red), "failed"), "\u{1b}[31mfailed\u{1b}[0m");
    assert_eq!(out(Tint::Colored(Hue::Green), "clean"), "\u{1b}[32mclean\u{1b}[0m");
    assert_eq!(out(Tint::Colored(Hue::Yellow), "/tmp/x"), "\u{1b}[33m/tmp/x\u{1b}[0m");
    assert_eq!(out(Tint::Colored(Hue::Cyan), "main"), "\u{1b}[36mmain\u{1b}[0m");
    assert_eq!(out(Tint::Colored(Hue::Cyan), ""), "\u{1b}[36m\u{1b}[0m");

    colored::control::set_override(false);
    assert_eq!(out(Tint::Plain, "as it is"), "as it is");
    assert_eq!(out(Tint::Bold, "Worktrees:"), "Worktrees:");
    assert_eq!(out(Tint::Colored(Hue::Red), "failed"), "failed");
    assert_eq!(out(Tint::Colored(Hue::Green), "clean"), "clean");
    assert_eq!(out(Tint::Colored(Hue::Yellow), "/tmp/x"), "/tmp/x");
    assert_eq!(out(Tint::Colored(Hue::Cyan), "main"), "main");
    colored::control::unset_override();
}

#[test]
fn render_keeps_the_text_inside() {
    for tint in [Tint::Plain, Tint::Bold, Tint::Colored(Hue::Green)] {
        let shown = render(&piece(Stream::Stderr, tint, "  Error: no such worktree\n"));
        assert!(shown.contains("  Error: no such worktree\n"));
    }
}

#[test]
fn plain_text_joins_the_pieces_of_one_stream() {
    let say = vec![
        piece(Stream::Stdout, Tint::Plain, "Pruning "),
        piece(Stream::Stdout, Tint::Colored(Hue::Yellow), "feature"),
        piece(Stream::Stdout, Tint::Plain, "... "),
        piece(Stream::Stdout, Tint::Colored(Hue::Red), "failed"),
        piece(Stream::Stdout, Tint::Plain, "\n"),
        piece(Stream::Stderr, Tint::Plain, "  Error: locked\n"),
        piece(Stream::Stdout, Tint::Plain, "\nPruned 0 worktrees\n"),
    ];
    assert_eq!(
        plain_text(&say, Stream::Stdout),
        "Pruning feature... failed\n\nPruned 0 worktrees\n"
    );
    assert_eq!(plain_text(&say, Stream::Stderr), "  Error: locked\n");
    assert_eq!(plain_text(&Vec::new(), Stream::Stdout), "");
}

#[test]
fn every_error_has_its_line() {
    let name = || "feature".to_string();
    let path = || "/tmp/repo_feature".to_string();
    let cases = [
        (
            WorktreeError::NotInRepository,
            "Not in a git repository. Please run this command inside a git repository.",
        ),
        (WorktreeError::NoWorkingDirectory, "Failed to get repository working directory"),
        (WorktreeError::NoRepositoryName, "Failed to get repository directory name"),
        (WorktreeError::EncodingIssue, "Repository name contains invalid UTF-8"),
        (WorktreeError::EmptyName, "name must be non-empty"),
        (
            WorktreeError::NotFound { name: name(), place: Some(path()) },
            "Worktree 'feature' not found at \"/tmp/repo_feature\"",
        ),
        (WorktreeError::NotFound { name: name(), place: None }, "Worktree 'feature' not found"),
        (
            WorktreeError::AlreadyExists { name: name(), path: path() },
            "Worktree 'feature' already exists at \"/tmp/repo_feature\"",
        ),
        (
            WorktreeError::SubprocessLaunchFailure {
                context: "Failed to execute git pull command".to_string(),
            },
            "Failed to execute git pull command",
        ),
        (
            WorktreeError::SubprocessReportedFailure {
                text: "Failed to pull: fatal: refusing to merge\n".to_string(),
            },
            "Failed to pull: fatal: refusing to merge\n",
        ),
        (WorktreeError::RemoteMissing, "No remote 'origin' configured"),
        (WorktreeError::UnexpectedEvent, "Unexpected event for this operation"),
    ];
    for (error, line) in cases {
        assert_eq!(error.message(), line);
    }
}
