//! The machine-readable listing of working copies, read into records.

use vstd::prelude::*;
use crate::paths::{main_path, RepositoryHandle};
use crate::text::{
    chars_of, copy_range, end_without, lemma_lines_are_few, lines_of, rows, same_chars,
    split_lines, starts_with, string_of, text_of, trim_end,
};

verus! {

/// One working copy of the listing.
#[derive(Debug, PartialEq, Eq)]
pub struct WorktreeRecord {
    /// Where it is, without slashes at the end.
    pub path: String,
    /// The branch it is on; none where it is detached.
    pub branch: Option<String>,
    /// Whether it is a repository without working directory contents.
    pub is_bare: bool,
    /// Whether it is the repository's primary working copy.
    pub is_main: bool,
}

/// A `WorktreeRecord` as character sequences.
pub struct RecordView {
    pub path: Seq<char>,
    pub branch: Option<Seq<char>>,
    pub is_bare: bool,
    pub is_main: bool,
}

impl View for WorktreeRecord {
    type V = RecordView;

    open spec fn view(&self) -> RecordView {
        RecordView {
            path: self.path@,
            branch: match self.branch {
                Some(b) => Some(b@),
                None => None,
            },
            is_bare: self.is_bare,
            is_main: self.is_main,
        }
    }
}

/// The views of the records in `v`.
pub open spec fn records(v: Seq<WorktreeRecord>) -> Seq<RecordView> {
    Seq::new(v.len(), |i: int| v[i]@)
}

/// Whether `line` opens a record.
pub open spec fn is_worktree_line(line: Seq<char>) -> bool {
    "worktree "@.is_prefix_of(line)
}

/// Whether there is a line `i` and it starts with `prefix`.
pub open spec fn has_line(lines: Seq<Seq<char>>, i: int, prefix: Seq<char>) -> bool {
    0 <= i < lines.len() && prefix.is_prefix_of(lines[i])
}

/// The path that a line which opens a record gives.
pub open spec fn path_of(line: Seq<char>) -> Seq<char> {
    trim_end(line.skip("worktree "@.len() as int), '/')
}

/// The branch that a branch line gives: what follows `refs/heads/`, as it
/// stands; `unknown` where the line names something else.
pub open spec fn branch_of(line: Seq<char>) -> Seq<char> {
    if "branch refs/heads/"@.is_prefix_of(line) {
        line.skip("branch refs/heads/"@.len() as int)
    } else {
        "unknown"@
    }
}

/// The record that line `i` opens. After that line an object line may
/// come, then a branch line, then the line that marks a bare repository;
/// each is looked for once, in this order, right after the one before.
pub open spec fn record_at(main: Seq<char>, lines: Seq<Seq<char>>, i: int) -> RecordView {
    let b = if has_line(lines, i + 1, "HEAD "@) {
        i + 2
    } else {
        i + 1
    };
    let named = has_line(lines, b, "branch "@);
    let m = if named {
        b + 1
    } else {
        b
    };
    RecordView {
        path: path_of(lines[i]),
        branch: if named {
            Some(branch_of(lines[b]))
        } else {
            None
        },
        is_bare: 0 <= m < lines.len() && lines[m] == "bare"@,
        is_main: path_of(lines[i]) == main,
    }
}

/// The records that the first `n` lines open, in the order of the lines.
pub open spec fn records_upto(main: Seq<char>, lines: Seq<Seq<char>>, n: int) -> Seq<RecordView>
    decreases n,
{
    if n <= 0 {
        Seq::empty()
    } else if is_worktree_line(lines[n - 1]) {
        records_upto(main, lines, n - 1).push(record_at(main, lines, n - 1))
    } else {
        records_upto(main, lines, n - 1)
    }
}

/// The records of the listing `text`, for a repository whose primary
/// working copy is at `main`.
pub open spec fn parsed(main: Seq<char>, text: Seq<char>) -> Seq<RecordView> {
    records_upto(main, lines_of(text), lines_of(text).len() as int)
}

/// A line that is looked at after the one that opens a record does not
/// open a record itself.
pub proof fn lemma_field_line_opens_nothing(line: Seq<char>)
    requires
        "HEAD "@.is_prefix_of(line) || "branch "@.is_prefix_of(line) || line == "bare"@,
    ensures
        !is_worktree_line(line),
{
    reveal_strlit("worktree ");
    reveal_strlit("HEAD ");
    reveal_strlit("branch ");
    reveal_strlit("bare");
    if is_worktree_line(line) {
        assert(line[0] == "worktree "@[0]);
        if "HEAD "@.is_prefix_of(line) {
        } else if "branch "@.is_prefix_of(line) {
        }
    }
}

/// Each line that opens a record gives one record, and no other line gives
/// any.
pub proof fn lemma_one_record_per_worktree_line(main: Seq<char>, lines: Seq<Seq<char>>, n: int)
    requires
        0 <= n <= lines.len(),
    ensures
        records_upto(main, lines, n).len() == lines.take(n).filter(
            |l: Seq<char>| is_worktree_line(l),
        ).len(),
    decreases n,
{
    reveal(Seq::filter);
    if n > 0 {
        lemma_one_record_per_worktree_line(main, lines, n - 1);
        assert(lines.take(n).drop_last() =~= lines.take(n - 1));
    }
}

/// The listing gives as many records as it has lines that open one.
pub proof fn lemma_parsed_count(main: Seq<char>, text: Seq<char>)
    ensures
        parsed(main, text).len() == lines_of(text).filter(
            |l: Seq<char>| is_worktree_line(l),
        ).len(),
{
    let lines = lines_of(text);
    lemma_one_record_per_worktree_line(main, lines, lines.len() as int);
    assert(lines.take(lines.len() as int) =~= lines);
}

/// The first `n` lines open at most `n` records.
pub proof fn lemma_records_are_few(main: Seq<char>, lines: Seq<Seq<char>>, n: int)
    requires
        0 <= n,
    ensures
        records_upto(main, lines, n).len() <= n,
    decreases n,
{
    if n > 0 {
        lemma_records_are_few(main, lines, n - 1);
    }
}

/// A listing gives no more records than it has characters.
pub proof fn lemma_parsed_is_short(main: Seq<char>, text: Seq<char>)
    ensures
        parsed(main, text).len() <= text.len(),
{
    lemma_lines_are_few(text);
    lemma_records_are_few(main, lines_of(text), lines_of(text).len() as int);
}

/// What is left when the run of `c` at the end is taken away does not end
/// in `c`.
pub proof fn lemma_trim_end_is_done(s: Seq<char>, c: char)
    ensures
        trim_end(s, c).len() == 0 || trim_end(s, c).last() != c,
    decreases s.len(),
{
    if s.len() > 0 && s.last() == c {
        lemma_trim_end_is_done(s.drop_last(), c);
    }
}

/// No record's path ends in a slash.
pub proof fn lemma_paths_are_normalized(main: Seq<char>, lines: Seq<Seq<char>>, n: int, i: int)
    requires
        0 <= i < records_upto(main, lines, n).len(),
    ensures
        records_upto(main, lines, n)[i].path.len() == 0 || records_upto(main, lines, n)[i].path.last()
            != '/',
    decreases n,
{
    if n > 0 {
        if i < records_upto(main, lines, n - 1).len() {
            lemma_paths_are_normalized(main, lines, n - 1, i);
        } else {
            lemma_trim_end_is_done(lines[n - 1].skip("worktree "@.len() as int), '/');
        }
    }
}

/// A record is marked as the primary working copy exactly where its path
/// is the primary working copy's.
pub proof fn lemma_main_is_by_path(main: Seq<char>, lines: Seq<Seq<char>>, n: int, i: int)
    requires
        0 <= i < records_upto(main, lines, n).len(),
    ensures
        records_upto(main, lines, n)[i].is_main == (records_upto(main, lines, n)[i].path == main),
    decreases n,
{
    if n > 0 {
        if i < records_upto(main, lines, n - 1).len() {
            lemma_main_is_by_path(main, lines, n - 1, i);
        }
    }
}

/// Where no two records of a listing share a path and one of them has the
/// primary working copy's path, exactly one record is marked as the
/// primary working copy.
pub proof fn lemma_exactly_one_main(main: Seq<char>, text: Seq<char>)
    requires
        forall|i: int, j: int|
            0 <= i < j < parsed(main, text).len() ==> parsed(main, text)[i].path != parsed(
                main,
                text,
            )[j].path,
        exists|i: int| 0 <= i < parsed(main, text).len() && parsed(main, text)[i].path == main,
    ensures
        exists|i: int|
            0 <= i < parsed(main, text).len() && parsed(main, text)[i].is_main && forall|j: int|
                0 <= j < parsed(main, text).len() && parsed(main, text)[j].is_main ==> j == i,
{
    let rs = parsed(main, text);
    let lines = lines_of(text);
    let w = choose|i: int| 0 <= i < rs.len() && rs[i].path == main;
    lemma_main_is_by_path(main, lines, lines.len() as int, w);
    assert forall|j: int| 0 <= j < rs.len() && rs[j].is_main implies j == w by {
        lemma_main_is_by_path(main, lines, lines.len() as int, j);
    }
}

/// The path that the line `line`, which opens a record, gives.
fn read_path(line: &Vec<char>, skip: usize) -> (r: String)
    requires
        skip <= line.len(),
    ensures
        r@ == trim_end(line@.skip(skip as int), '/'),
{
    let rest = copy_range(line, skip, line.len());
    assert(rest@.take(rest@.len() as int) =~= rest@);
    let end = end_without(&rest, rest.len(), '/');
    string_of(&rest, 0, end)
}

/// The branch that the branch line `line` gives.
fn read_branch(line: &Vec<char>) -> (r: String)
    ensures
        r@ == branch_of(line@),
{
    let prefix = chars_of("branch refs/heads/");
    if starts_with(line, &prefix) {
        string_of(line, prefix.len(), line.len())
    } else {
        let unknown = chars_of("unknown");
        text_of(&unknown)
    }
}

/// The records that `lines` hold.
pub fn parse_lines(main: &Vec<char>, lines: &Vec<Vec<char>>) -> (out: Vec<WorktreeRecord>)
    ensures
        records(out@) == records_upto(main@, rows(lines@), lines@.len() as int),
{
    let opens = chars_of("worktree ");
    let object = chars_of("HEAD ");
    let named = chars_of("branch ");
    let bare = chars_of("bare");
    let n: usize = lines.len();
    let ghost all = rows(lines@);
    let mut out: Vec<WorktreeRecord> = Vec::new();
    let mut i: usize = 0;
    while i < n
        invariant
            i <= n,
            n == lines@.len(),
            all == rows(lines@),
            opens@ == "worktree "@,
            object@ == "HEAD "@,
            named@ == "branch "@,
            bare@ == "bare"@,
            records(out@) == records_upto(main@, all, i as int),
        decreases n - i,
    {
        if starts_with(&lines[i], &opens) {
            let path = read_path(&lines[i], opens.len());
            let is_main = same_chars(&chars_of(path.as_str()), main);
            let mut k: usize = i + 1;
            if k < n {
                if starts_with(&lines[k], &object) {
                    proof {
                        lemma_field_line_opens_nothing(all[k as int]);
                    }
                    k += 1;
                }
            }
            let mut branch: Option<String> = None;
            if k < n {
                if starts_with(&lines[k], &named) {
                    proof {
                        lemma_field_line_opens_nothing(all[k as int]);
                    }
                    branch = Some(read_branch(&lines[k]));
                    k += 1;
                }
            }
            let mut is_bare = false;
            if k < n {
                if same_chars(&lines[k], &bare) {
                    proof {
                        lemma_field_line_opens_nothing(all[k as int]);
                    }
                    is_bare = true;
                    k += 1;
                }
            }
            let record = WorktreeRecord { path, branch, is_bare, is_main };
            out.push(record);
            // The lines passed over open no record: one step for each.
            assert(records_upto(main@, all, k as int) == records_upto(main@, all, i + 1)) by {
                if k >= i + 2 {
                    assert(records_upto(main@, all, i + 2) == records_upto(main@, all, i + 1));
                }
                if k >= i + 3 {
                    assert(records_upto(main@, all, i + 3) == records_upto(main@, all, i + 2));
                }
                if k >= i + 4 {
                    assert(records_upto(main@, all, i + 4) == records_upto(main@, all, i + 3));
                }
            }
            i = k;
        } else {
            i += 1;
        }
    }
    out
}

/// The records of the listing `raw_text`, in the order of the listing. An
/// empty listing gives no records.
pub fn parse(repo: &RepositoryHandle, raw_text: &str) -> (out: Vec<WorktreeRecord>)
    ensures
        records(out@) == parsed(main_path(repo@.workdir), raw_text@),
{
    let main = repo.main_path();
    let main_chars = chars_of(main.as_str());
    let text = chars_of(raw_text);
    let lines = split_lines(&text);
    parse_lines(&main_chars, &lines)
}

} // verus!
