//! Where things are: the repository's working directory, the name taken
//! from it, and the directory beside it in which a named working copy lives.

use vstd::prelude::*;
use vstd::string::StringExecFns;
use crate::error::{ErrorView, WorktreeError};
use crate::text::{
    after_last, chars_of, end_without, matches_at, start_after_last, string_of, trim_end,
};

verus! {

/// A path without the slashes at its end.
pub open spec fn main_path(path: Seq<char>) -> Seq<char> {
    trim_end(path, '/')
}

/// The last segment of a path: what follows its last slash, once the
/// slashes at its end are taken away.
pub open spec fn last_segment(path: Seq<char>) -> Seq<char> {
    after_last(main_path(path), '/')
}

/// Whether a segment names a directory: it is not empty and is neither `.`
/// nor `..`.
pub open spec fn names_directory(segment: Seq<char>) -> bool {
    segment.len() > 0 && segment != seq!['.'] && segment != seq!['.', '.']
}

/// Whether `name` can name a working copy: it is not empty and fits in one
/// path segment.
pub open spec fn valid_name(name: Seq<char>) -> bool {
    name.len() > 0 && !name.contains('/')
}

/// The path up to its last segment, the slash before that segment
/// included.
pub open spec fn directory_of(path: Seq<char>) -> Seq<char> {
    main_path(path).take(main_path(path).len() - last_segment(path).len())
}

/// The entry `leaf` of the directory that holds `path`.
pub open spec fn sibling(path: Seq<char>, leaf: Seq<char>) -> Seq<char> {
    directory_of(path) + leaf
}

/// The last segment of the path of the working copy `name` of a repository
/// called `repo_name`.
pub open spec fn worktree_leaf(repo_name: Seq<char>, name: Seq<char>) -> Seq<char> {
    repo_name + seq!['_'] + name
}

/// The path of the working copy `name` of the repository at `workdir`: it
/// lies beside the repository, under the repository's name, an underscore
/// and `name`.
pub open spec fn worktree_path(workdir: Seq<char>, name: Seq<char>) -> Seq<char> {
    sibling(workdir, worktree_leaf(last_segment(workdir), name))
}

/// The name of the working copy at `path`, where `path` ends in a segment
/// made of the repository's name, an underscore and a name that is not
/// empty.
pub open spec fn worktree_name(workdir: Seq<char>, path: Seq<char>) -> Option<Seq<char>> {
    let segment = last_segment(path);
    let prefix = last_segment(workdir) + seq!['_'];
    if prefix.is_prefix_of(segment) && segment.len() > prefix.len() {
        Some(segment.skip(prefix.len() as int))
    } else {
        None
    }
}

/// The last segment of `path` where it names a directory, else `fallback`.
pub open spec fn leaf_name(path: Seq<char>, fallback: Seq<char>) -> Seq<char> {
    if names_directory(last_segment(path)) {
        last_segment(path)
    } else {
        fallback
    }
}

/// The short name under which the working copy at `path` is shown: its
/// leaf name, without the repository's name and underscore at its start
/// where it has them.
pub open spec fn short_name(workdir: Seq<char>, path: Seq<char>, fallback: Seq<char>) -> Seq<
    char,
> {
    let leaf = leaf_name(path, fallback);
    let prefix = last_segment(workdir) + seq!['_'];
    if prefix.is_prefix_of(leaf) {
        leaf.skip(prefix.len() as int)
    } else {
        leaf
    }
}

/// What follows the last `c` of `s` is the end of `s`.
pub proof fn lemma_after_last_is_suffix(s: Seq<char>, c: char)
    ensures
        after_last(s, c).len() <= s.len(),
        s == s.take(s.len() - after_last(s, c).len()) + after_last(s, c),
        !after_last(s, c).contains(c),
    decreases s.len(),
{
    if s.len() > 0 && s.last() != c {
        let t = s.drop_last();
        lemma_after_last_is_suffix(t, c);
        assert(s =~= t.push(s.last()));
    }
}

/// Text without `c` added at the end of `s` stands after the last `c` of
/// `s` as it stood at the end of `s`.
pub proof fn lemma_after_last_append(s: Seq<char>, t: Seq<char>, c: char)
    requires
        !t.contains(c),
    ensures
        after_last(s + t, c) == after_last(s, c) + t,
    decreases t.len(),
{
    if t.len() > 0 {
        let u = t.drop_last();
        lemma_after_last_append(s, u, c);
        assert((s + t).drop_last() =~= s + u);
    }
}

/// A path that is beside the repository under a leaf that starts with the
/// repository's name is the repository's path followed by the rest of the
/// leaf.
pub proof fn lemma_worktree_path(workdir: Seq<char>, name: Seq<char>)
    ensures
        worktree_path(workdir, name) == main_path(workdir) + seq!['_'] + name,
{
    let m = main_path(workdir);
    lemma_after_last_is_suffix(m, '/');
}

/// The name of a working copy can be read back from its path: for every
/// valid name `n`, the path of the working copy `n` names `n`.
pub proof fn lemma_name_of_resolved_path(workdir: Seq<char>, n: Seq<char>)
    requires
        valid_name(n),
    ensures
        worktree_name(workdir, worktree_path(workdir, n)) == Some(n),
{
    let m = main_path(workdir);
    let p = worktree_path(workdir, n);
    let tail = seq!['_'] + n;
    lemma_worktree_path(workdir, n);
    assert(p =~= m + tail);
    lemma_after_last_append(m, tail, '/');
}

/// Two working copies with different names live at different paths.
pub proof fn lemma_paths_differ(workdir: Seq<char>, a: Seq<char>, b: Seq<char>)
    requires
        a != b,
    ensures
        worktree_path(workdir, a) != worktree_path(workdir, b),
{
    let m = main_path(workdir) + seq!['_'];
    lemma_worktree_path(workdir, a);
    lemma_worktree_path(workdir, b);
    if worktree_path(workdir, a) == worktree_path(workdir, b) {
        assert((m + a).skip(m.len() as int) =~= a);
        assert((m + b).skip(m.len() as int) =~= b);
    }
}

/// What the search for the repository that holds the current directory
/// came back with.
#[derive(Debug, PartialEq, Eq)]
pub enum Discovery {
    /// No repository holds the directory.
    NotFound,
    /// A repository does, but it has no working directory.
    Bare,
    /// The working directory's path is not valid UTF-8.
    NotUtf8,
    /// The repository's working directory.
    Found { workdir: String },
}

/// A repository as the `git2` crate holds it. Nothing of what it holds is
/// seen here.
#[verifier::external_type_specification]
#[verifier::external_body]
pub struct ExRepository(git2::Repository);

/// `git2::Repository::workdir`, with the path that it gives turned into
/// text: nothing for a bare repository, and nothing in place of the text
/// where the path is not valid UTF-8. Nothing is claimed of the result.
#[verifier::external_body]
fn workdir_of(repo: &git2::Repository) -> (workdir: Option<Option<String>>) {
    repo.workdir().map(|path| path.to_str().map(|text| text.to_string()))
}

impl Discovery {
    /// What a repository that was found has to say of its working
    /// directory. Which of the three answers comes only the repository
    /// knows; `from_workdir` says which answer each working directory
    /// gives.
    pub fn of(repo: &git2::Repository) -> (found: Discovery)
        ensures
            !(found is NotFound),
    {
        Discovery::from_workdir(workdir_of(repo))
    }

    /// What the working directory that a repository gave means. Nothing
    /// stands for a bare repository; nothing in place of the text stands
    /// for a path that is not valid UTF-8.
    pub fn from_workdir(workdir: Option<Option<String>>) -> (found: Discovery)
        ensures
            match workdir {
                None => found is Bare,
                Some(None) => found is NotUtf8,
                Some(Some(text)) => found == (Discovery::Found { workdir: text }),
            },
    {
        match workdir {
            None => Discovery::Bare,
            Some(None) => Discovery::NotUtf8,
            Some(Some(text)) => Discovery::Found { workdir: text },
        }
    }
}

/// The repository an operation works on: its working directory and the
/// name taken from that directory's last segment.
#[derive(Debug, PartialEq, Eq)]
pub struct RepositoryHandle {
    workdir: String,
    name: String,
}

/// A `RepositoryHandle` as character sequences.
pub struct RepoView {
    pub workdir: Seq<char>,
    pub name: Seq<char>,
}

impl View for RepositoryHandle {
    type V = RepoView;

    closed spec fn view(&self) -> RepoView {
        RepoView { workdir: self.workdir@, name: self.name@ }
    }
}

impl RepositoryHandle {
    /// The name is the last segment of the working directory, and names a
    /// directory.
    #[verifier::type_invariant]
    closed spec fn well_formed(self) -> bool {
        self.name@ == last_segment(self.workdir@) && names_directory(self.name@)
    }

    /// The handle for the repository whose working directory is `workdir`.
    pub fn new(workdir: &str) -> (r: Result<RepositoryHandle, WorktreeError>)
        ensures
            match r {
                Ok(repo) => names_directory(last_segment(workdir@)) && repo@.workdir == workdir@
                    && repo@.name == last_segment(workdir@),
                Err(e) => !names_directory(last_segment(workdir@)) && e@
                    == ErrorView::NoRepositoryName,
            },
    {
        match repository_name(workdir) {
            Ok(name) => Ok(RepositoryHandle { workdir: String::from_str(workdir), name }),
            Err(e) => Err(e),
        }
    }

    /// The working directory, as it was given.
    pub fn workdir(&self) -> (r: &str)
        ensures
            r@ == self@.workdir,
    {
        self.workdir.as_str()
    }

    /// The repository's name: the last segment of its working directory.
    pub fn name(&self) -> (r: &str)
        ensures
            r@ == self@.name,
            r@ == last_segment(self@.workdir),
            names_directory(r@),
    {
        proof {
            use_type_invariant(self);
        }
        self.name.as_str()
    }

    /// The working directory without the slashes at its end: the path
    /// under which the listing shows the primary working copy.
    pub fn main_path(&self) -> (r: String)
        ensures
            r@ == main_path(self@.workdir),
    {
        normalized(self.workdir.as_str())
    }
}

/// `path` without the slashes at its end.
pub fn normalized(path: &str) -> (r: String)
    ensures
        r@ == main_path(path@),
{
    let chars = chars_of(path);
    assert(chars@.take(chars@.len() as int) =~= chars@);
    let end = end_without(&chars, chars.len(), '/');
    string_of(&chars, 0, end)
}

/// The name of the repository whose working directory is `workdir`: the
/// last segment of `workdir`. It fails where that segment is empty, `.` or
/// `..`.
pub fn repository_name(workdir: &str) -> (r: Result<String, WorktreeError>)
    ensures
        match r {
            Ok(name) => names_directory(last_segment(workdir@)) && name@ == last_segment(workdir@),
            Err(e) => !names_directory(last_segment(workdir@)) && e@
                == ErrorView::NoRepositoryName,
        },
{
    match segment_of(workdir) {
        Some(name) => Ok(name),
        None => Err(WorktreeError::NoRepositoryName),
    }
}

/// The name of the repository `repo`: the last segment of its working
/// directory. What the working directory is only the repository knows; the
/// name is `repository_name` of it, and the failures are those of a
/// repository without a working directory, of a path that is no text, and
/// of `repository_name`.
pub fn get_repository_name(repo: &git2::Repository) -> (r: Result<String, WorktreeError>)
    ensures
        match r {
            Ok(name) => names_directory(name@),
            Err(e) => e@ == ErrorView::NoWorkingDirectory || e@ == ErrorView::EncodingIssue || e@
                == ErrorView::NoRepositoryName,
        },
{
    match ensure_git_repository(Discovery::of(repo)) {
        Ok(handle) => {
            Ok(handle.name)
        },
        Err(e) => Err(e),
    }
}

/// The last segment of `path`, where it names a directory.
pub fn segment_of(path: &str) -> (r: Option<String>)
    ensures
        match r {
            Some(s) => names_directory(last_segment(path@)) && s@ == last_segment(path@),
            None => !names_directory(last_segment(path@)),
        },
{
    let chars = chars_of(path);
    assert(chars@.take(chars@.len() as int) =~= chars@);
    let end = end_without(&chars, chars.len(), '/');
    let start = start_after_last(&chars, end, '/');
    let ghost segment = chars@.subrange(start as int, end as int);
    let n: usize = end - start;
    if n == 0 {
        None
    } else if n == 1 && chars[start] == '.' {
        assert(segment =~= seq!['.']);
        None
    } else if n == 2 && chars[start] == '.' && chars[start + 1] == '.' {
        assert(segment =~= seq!['.', '.']);
        None
    } else {
        assert(segment != seq!['.']) by {
            assert(seq!['.'].len() == 1);
            if n == 1 {
                assert(segment[0] != seq!['.'][0]);
            }
        }
        Some(string_of(&chars, start, end))
    }
}

/// The handle for the repository that was found, or why there is none.
pub fn ensure_git_repository(found: Discovery) -> (r: Result<RepositoryHandle, WorktreeError>)
    ensures
        match r {
            Ok(repo) => found matches Discovery::Found { workdir } && names_directory(
                last_segment(workdir@),
            ) && repo@.workdir == workdir@ && repo@.name == last_segment(workdir@),
            Err(e) => match found {
                Discovery::NotFound => e@ == ErrorView::NotInRepository,
                Discovery::Bare => e@ == ErrorView::NoWorkingDirectory,
                Discovery::NotUtf8 => e@ == ErrorView::EncodingIssue,
                Discovery::Found { workdir } => !names_directory(last_segment(workdir@)) && e@
                    == ErrorView::NoRepositoryName,
            },
        },
{
    match found {
        Discovery::NotFound => Err(WorktreeError::NotInRepository),
        Discovery::Bare => Err(WorktreeError::NoWorkingDirectory),
        Discovery::NotUtf8 => Err(WorktreeError::EncodingIssue),
        Discovery::Found { workdir } => RepositoryHandle::new(workdir.as_str()),
    }
}

/// The path of the working copy `name`. An empty name is refused.
pub fn resolve(repo: &RepositoryHandle, name: &str) -> (r: Result<String, WorktreeError>)
    ensures
        match r {
            Ok(path) => name@.len() > 0 && path@ == worktree_path(repo@.workdir, name@),
            Err(e) => name@.len() == 0 && e@ == ErrorView::EmptyName,
        },
{
    if name.unicode_len() == 0 {
        return Err(WorktreeError::EmptyName);
    }
    let mut path = repo.main_path();
    path.append("_");
    path.append(name);
    proof {
        reveal_strlit("_");
        lemma_worktree_path(repo@.workdir, name@);
    }
    Ok(path)
}

/// The name of the working copy at `path`, or nothing where `path` does
/// not end in the repository's name, an underscore and a name.
pub fn reverse(repo: &RepositoryHandle, path: &str) -> (r: Option<String>)
    ensures
        match r {
            Some(name) => worktree_name(repo@.workdir, path@) == Some(name@),
            None => worktree_name(repo@.workdir, path@) is None,
        },
{
    proof {
        use_type_invariant(repo);
    }
    let chars = chars_of(path);
    assert(chars@.take(chars@.len() as int) =~= chars@);
    let end = end_without(&chars, chars.len(), '/');
    let start = start_after_last(&chars, end, '/');
    let mut prefix = chars_of(repo.name.as_str());
    prefix.push('_');
    let ghost segment = chars@.subrange(start as int, end as int);
    assert(prefix@ =~= last_segment(repo@.workdir) + seq!['_']);
    if end - start > prefix.len() && matches_at(&chars, &prefix, start) {
        Some(string_of(&chars, start + prefix.len(), end))
    } else {
        if end - start > prefix.len() {
            assert(segment.subrange(0, prefix@.len() as int) =~= chars@.subrange(
                start as int,
                start + prefix@.len(),
            ));
        }
        None
    }
}

} // verus!
