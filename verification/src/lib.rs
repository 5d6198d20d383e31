//! Decisions of a manager for linked working copies of a repository: where
//! a named working copy lives, what the listing of the version-control tool
//! says, which working copies can be pruned, and what to do next while an
//! operation runs.
//!
//! Nothing here touches the disk or starts a process. An operation is a
//! function from a state and an event to the next state and an action; the
//! program around the library performs the action and comes back with the
//! event.
//!
//! Every function is verified against its contract but four, which are
//! taken on trust: `push_char` in `text`, which is `String::push`;
//! `paint_bold` and `paint_color` in `output`, which call the `colored`
//! crate; and `workdir_of` in `paths`, which asks a repository of the `git2`
//! crate for its working directory and claims nothing of the answer.

pub mod error;
pub mod failure;
pub mod list;
pub mod merge;
pub mod output;
pub mod paths;
pub mod porcelain;
pub mod protocol;
pub mod prune;
pub mod pull;
pub mod session;
pub mod status;
pub mod text;
pub mod worktree;

pub use error::WorktreeError;
pub use failure::{classify_failure, classify_pull, FailureKind, Operation, PullResult};
pub use list::{list_worktrees, show_worktrees_status};
pub use merge::{classify, PruneCandidate};
pub use output::{plain_text, render, Hue, Piece, Stream, Tint};
pub use paths::{
    ensure_git_repository, get_repository_name, repository_name, resolve, reverse, Discovery,
    RepositoryHandle,
};
pub use porcelain::{parse, WorktreeRecord};
pub use protocol::{Action, Event, Request};
pub use prune::{prune_merged_worktrees, PruneStage, PruneState};
pub use pull::{pull_all_worktrees, pull_current_worktree, pull_worktree};
pub use session::{Stage, Walk, WalkStage};
pub use status::{aggregate, classify_check, Cleanliness, StatusEntry};
pub use worktree::{create_worktree, remove_worktree, switch_to_worktree};
