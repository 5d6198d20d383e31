use gwtr::{ensure_git_repository, get_repository_name, repository_name, resolve, reverse};
use gwtr::{Discovery, RepositoryHandle, WorktreeError};

fn repo_at(workdir: &str) -> RepositoryHandle {
    RepositoryHandle::new(workdir).unwrap()
}

#[test]
fn resolve_puts_the_worktree_beside_the_repository() {
    let repo = repo_at("/home/me/project/");
    assert_eq!(resolve(&repo, "feature-a").unwrap(), "/home/me/project_feature-a");
}

#[test]
fn resolve_at_the_root_directory() {
    let repo = repo_at("/project");
    assert_eq!(resolve(&repo, "x").unwrap(), "/project_x");
}

#[test]
fn resolve_of_a_relative_working_directory() {
    let repo = repo_at("project");
    assert_eq!(resolve(&repo, "x").unwrap(), "project_x");
}

#[test]
fn resolve_refuses_an_empty_name() {
    let repo = repo_at("/home/me/project");
    let error = resolve(&repo, "").unwrap_err();
    assert!(matches!(error, WorktreeError::EmptyName));
    assert_eq!(error.message(), "name must be non-empty");
}

#[test]
fn reverse_gives_back_the_name() {
    let repo = repo_at("/home/me/project/");
    for name in ["feature-a", "b", "with_underscore", "project_again", "ünï"] {
        let path = resolve(&repo, name).unwrap();
        assert_eq!(reverse(&repo, &path).as_deref(), Some(name));
    }
}

#[test]
fn reverse_knows_the_main_worktree_is_none_of_them() {
    let repo = repo_at("/home/me/project/");
    assert_eq!(reverse(&repo, "/home/me/project"), None);
    assert_eq!(reverse(&repo, "/home/me/project/"), None);
    assert_eq!(reverse(&repo, "/home/me/project_"), None);
    assert_eq!(reverse(&repo, "/home/me/other_feature"), None);
    assert_eq!(reverse(&repo, ""), None);
}

#[test]
fn reverse_reads_the_last_segment_only() {
    let repo = repo_at("/home/me/project");
    assert_eq!(reverse(&repo, "/elsewhere/project_x//").as_deref(), Some("x"));
}

#[test]
fn different_names_give_different_paths() {
    let repo = repo_at("/home/me/project");
    assert_ne!(resolve(&repo, "a").unwrap(), resolve(&repo, "b").unwrap());
    assert_ne!(resolve(&repo, "a").unwrap(), resolve(&repo, "a_").unwrap());
}

#[test]
fn repository_name_is_the_last_segment() {
    assert_eq!(repository_name("/home/me/project/").unwrap(), "project");
    assert_eq!(repository_name("/home/me/project").unwrap(), "project");
    assert_eq!(repository_name("project///").unwrap(), "project");
    assert_eq!(repository_name("/a/.b").unwrap(), ".b");
    assert_eq!(repository_name("/a/...").unwrap(), "...");
}

#[test]
fn repository_name_needs_a_segment() {
    for workdir in ["", "/", "///", "/a/..", "..", ".", "/a/."] {
        let error = repository_name(workdir).unwrap_err();
        assert!(matches!(error, WorktreeError::NoRepositoryName), "{workdir}");
        assert_eq!(error.message(), "Failed to get repository directory name");
    }
}

#[test]
fn handle_keeps_the_working_directory_as_given() {
    let repo = repo_at("/home/me/project/");
    assert_eq!(repo.workdir(), "/home/me/project/");
    assert_eq!(repo.name(), "project");
    assert_eq!(repo.main_path(), "/home/me/project");
}

#[test]
fn ensure_git_repository_tells_why_there_is_none() {
    let error = ensure_git_repository(Discovery::NotFound).unwrap_err();
    assert!(matches!(error, WorktreeError::NotInRepository));
    assert_eq!(
        error.message(),
        "Not in a git repository. Please run this command inside a git repository."
    );
    let error = ensure_git_repository(Discovery::Bare).unwrap_err();
    assert!(matches!(error, WorktreeError::NoWorkingDirectory));
    assert_eq!(error.message(), "Failed to get repository working directory");
    let error = ensure_git_repository(Discovery::NotUtf8).unwrap_err();
    assert!(matches!(error, WorktreeError::EncodingIssue));
    assert_eq!(error.message(), "Repository name contains invalid UTF-8");
    let error = ensure_git_repository(Discovery::Found { workdir: "/".to_string() }).unwrap_err();
    assert!(matches!(error, WorktreeError::NoRepositoryName));
}

#[test]
fn a_repository_on_disk_tells_its_working_directory() {
    let repo = git2::Repository::init("/tmp/gwtr-scratch/sample-repo").unwrap();
    let found = Discovery::of(&repo);
    let Discovery::Found { workdir } = &found else {
        panic!("no working directory: {found:?}");
    };
    assert!(workdir.ends_with("/gwtr-scratch/sample-repo/"), "{workdir}");
    let handle = ensure_git_repository(found).unwrap();
    assert_eq!(handle.name(), "sample-repo");
    assert!(handle.main_path().ends_with("/gwtr-scratch/sample-repo"));
    assert_eq!(get_repository_name(&repo).unwrap(), "sample-repo");

    let bare = git2::Repository::init_bare("/tmp/gwtr-scratch/bare.git").unwrap();
    assert_eq!(Discovery::of(&bare), Discovery::Bare);
    let error = ensure_git_repository(Discovery::of(&bare)).unwrap_err();
    assert!(matches!(error, WorktreeError::NoWorkingDirectory));
    let error = get_repository_name(&bare).unwrap_err();
    assert_eq!(error.message(), "Failed to get repository working directory");
}

#[test]
fn a_working_directory_is_read_as_it_was_given() {
    assert_eq!(Discovery::from_workdir(None), Discovery::Bare);
    assert_eq!(Discovery::from_workdir(Some(None)), Discovery::NotUtf8);
    assert_eq!(
        Discovery::from_workdir(Some(Some("/srv/code/tool/".to_string()))),
        Discovery::Found { workdir: "/srv/code/tool/".to_string() }
    );
    assert_eq!(
        Discovery::from_workdir(Some(Some(String::new()))),
        Discovery::Found { workdir: String::new() }
    );
}

#[test]
fn ensure_git_repository_gives_the_handle() {
    let found = Discovery::Found { workdir: "/srv/code/tool/".to_string() };
    let repo = ensure_git_repository(found).unwrap();
    assert_eq!(repo.name(), "tool");
    assert_eq!(repo.workdir(), "/srv/code/tool/");
}
