//! Which working copies are on branches that the trunk holds in full.

use vstd::prelude::*;
use vstd::string::StringExecFns;
use crate::paths::{last_segment, leaf_name, segment_of, short_name, RepositoryHandle};
use crate::porcelain::{records, RecordView, WorktreeRecord};
use crate::text::{
    chars_of, copy_range, lines_of, rows, same_chars, split_lines, starts_with, text_of,
    trim_space, trimmed,
};

verus! {

/// The name shown for a branch: `detached` where there is none.
pub open spec fn branch_label(branch: Option<Seq<char>>) -> Seq<char> {
    match branch {
        Some(b) => b,
        None => "detached"@,
    }
}

/// Whether `line` of the list of merged branches names `branch`: the line,
/// without the white space around it, is the branch's name, or the mark of
/// the branch checked out, a space, and the branch's name.
pub open spec fn names_branch(line: Seq<char>, branch: Seq<char>) -> bool {
    trim_space(line) == branch || trim_space(line) == seq!['*', ' '] + branch
}

/// Whether one of the first `n` lines names `branch`.
pub open spec fn named_upto(lines: Seq<Seq<char>>, branch: Seq<char>, n: int) -> bool {
    exists|i: int| 0 <= i < n && i < lines.len() && names_branch(lines[i], branch)
}

/// Whether the list of merged branches `listing` names `branch`.
pub open spec fn is_merged(listing: Seq<char>, branch: Seq<char>) -> bool {
    named_upto(lines_of(listing), branch, lines_of(listing).len() as int)
}

/// A working copy that may be pruned.
#[derive(Debug, PartialEq, Eq)]
pub struct PruneCandidate {
    pub record: WorktreeRecord,
    /// The short name under which it is shown.
    pub name: String,
    /// Whether its branch is merged into the trunk.
    pub merged: bool,
}

/// A `PruneCandidate` as character sequences.
pub struct CandidateView {
    pub record: RecordView,
    pub name: Seq<char>,
    pub merged: bool,
}

impl View for PruneCandidate {
    type V = CandidateView;

    open spec fn view(&self) -> CandidateView {
        CandidateView { record: self.record@, name: self.name@, merged: self.merged }
    }
}

/// The views of the candidates in `v`.
pub open spec fn candidates(v: Seq<PruneCandidate>) -> Seq<CandidateView> {
    Seq::new(v.len(), |i: int| v[i]@)
}

/// The candidate that `record` makes. It is merged where it is on a branch
/// and the list of merged branches, if there is one, names that branch.
pub open spec fn candidate_of(workdir: Seq<char>, listing: Option<Seq<char>>, record: RecordView)
    -> CandidateView {
    CandidateView {
        record,
        name: short_name(workdir, record.path, branch_label(record.branch)),
        merged: record.branch is Some && listing is Some && is_merged(
            listing->0,
            record.branch->0,
        ),
    }
}

/// The candidates among the first `n` records, in their order: every
/// record but the primary working copy.
pub open spec fn candidates_upto(
    workdir: Seq<char>,
    listing: Option<Seq<char>>,
    all: Seq<RecordView>,
    n: int,
) -> Seq<CandidateView>
    decreases n,
{
    if n <= 0 {
        Seq::empty()
    } else if all[n - 1].is_main {
        candidates_upto(workdir, listing, all, n - 1)
    } else {
        candidates_upto(workdir, listing, all, n - 1).push(
            candidate_of(workdir, listing, all[n - 1]),
        )
    }
}

/// The candidates among `all`.
pub open spec fn classified(workdir: Seq<char>, listing: Option<Seq<char>>, all: Seq<RecordView>)
    -> Seq<CandidateView> {
    candidates_upto(workdir, listing, all, all.len() as int)
}

/// The candidates among the first `n` that are merged, in their order.
pub open spec fn merged_upto(all: Seq<CandidateView>, n: int) -> Seq<CandidateView>
    decreases n,
{
    if n <= 0 {
        Seq::empty()
    } else if all[n - 1].merged {
        merged_upto(all, n - 1).push(all[n - 1])
    } else {
        merged_upto(all, n - 1)
    }
}

/// The candidates that are merged: what a prune removes.
pub open spec fn prune_targets(all: Seq<CandidateView>) -> Seq<CandidateView> {
    merged_upto(all, all.len() as int)
}

/// The primary working copy is never a candidate.
pub proof fn lemma_main_is_no_candidate(
    workdir: Seq<char>,
    listing: Option<Seq<char>>,
    all: Seq<RecordView>,
    n: int,
    i: int,
)
    requires
        0 <= i < candidates_upto(workdir, listing, all, n).len(),
    ensures
        !candidates_upto(workdir, listing, all, n)[i].record.is_main,
    decreases n,
{
    if n > 0 {
        if i < candidates_upto(workdir, listing, all, n - 1).len() {
            lemma_main_is_no_candidate(workdir, listing, all, n - 1, i);
        }
    }
}

/// What a prune removes is merged and is not the primary working copy.
pub proof fn lemma_targets_are_merged(
    workdir: Seq<char>,
    listing: Option<Seq<char>>,
    all: Seq<RecordView>,
    i: int,
)
    requires
        0 <= i < prune_targets(classified(workdir, listing, all)).len(),
    ensures
        prune_targets(classified(workdir, listing, all))[i].merged,
        !prune_targets(classified(workdir, listing, all))[i].record.is_main,
{
    let cs = classified(workdir, listing, all);
    lemma_merged_are_candidates(cs, cs.len() as int, i);
    let j = choose|j: int| 0 <= j < cs.len() && cs[j] == merged_upto(cs, cs.len() as int)[i];
    lemma_main_is_no_candidate(workdir, listing, all, all.len() as int, j);
}

/// Each of the merged candidates is one of the candidates, and is merged.
pub proof fn lemma_merged_are_candidates(all: Seq<CandidateView>, n: int, i: int)
    requires
        0 <= n <= all.len(),
        0 <= i < merged_upto(all, n).len(),
    ensures
        merged_upto(all, n)[i].merged,
        exists|j: int| 0 <= j < n && all[j] == merged_upto(all, n)[i],
    decreases n,
{
    if n > 0 {
        if i < merged_upto(all, n - 1).len() {
            lemma_merged_are_candidates(all, n - 1, i);
        }
    }
}

/// Whether the list of merged branches `listing` names `branch`.
pub fn branch_is_merged(listing: &str, branch: &str) -> (r: bool)
    ensures
        r == is_merged(listing@, branch@),
{
    let lines = split_lines(&chars_of(listing));
    let plain = chars_of(branch);
    let mut marked: Vec<char> = Vec::new();
    marked.push('*');
    marked.push(' ');
    let mut k: usize = 0;
    while k < plain.len()
        invariant
            k <= plain.len(),
            marked@ == seq!['*', ' '] + plain@.take(k as int),
        decreases plain.len() - k,
    {
        marked.push(plain[k]);
        k += 1;
    }
    let mut i: usize = 0;
    while i < lines.len()
        invariant
            i <= lines.len(),
            rows(lines@) == lines_of(listing@),
            plain@ == branch@,
            marked@ == seq!['*', ' '] + branch@,
            !named_upto(lines_of(listing@), branch@, i as int),
        decreases lines.len() - i,
    {
        let t = trimmed(&lines[i]);
        assert(rows(lines@)[i as int] == lines@[i as int]@);
        if same_chars(&t, &plain) || same_chars(&t, &marked) {
            return true;
        }
        i += 1;
    }
    false
}

/// The last segment of `path` where it names a directory, else `fallback`.
pub fn leaf_of(path: &str, fallback: &str) -> (r: String)
    ensures
        r@ == leaf_name(path@, fallback@),
{
    match segment_of(path) {
        Some(s) => s,
        None => String::from_str(fallback),
    }
}

/// The short name under which the working copy at `path` is shown.
pub fn short_name_of(repo: &RepositoryHandle, path: &str, fallback: &str) -> (r: String)
    ensures
        r@ == short_name(repo@.workdir, path@, fallback@),
{
    let leaf = chars_of(leaf_of(path, fallback).as_str());
    let mut prefix = chars_of(repo.name());
    prefix.push('_');
    if starts_with(&leaf, &prefix) {
        let rest = copy_range(&leaf, prefix.len(), leaf.len());
        text_of(&rest)
    } else {
        text_of(&leaf)
    }
}

/// The name shown for the branch of `record`.
pub fn branch_label_of(record: &WorktreeRecord) -> (r: String)
    ensures
        r@ == branch_label(record@.branch),
{
    match &record.branch {
        Some(b) => b.clone(),
        None => String::from_str("detached"),
    }
}

/// The working copies that may be pruned, each with its short name and
/// with whether its branch is merged: every record but the primary working
/// copy, in the order of the listing. `merged_listing` is the list of the
/// branches merged into the trunk, where it could be had.
pub fn classify(
    repo: &RepositoryHandle,
    all: Vec<WorktreeRecord>,
    merged_listing: Option<&str>,
) -> (out: Vec<PruneCandidate>)
    ensures
        candidates(out@) == classified(
            repo@.workdir,
            match merged_listing {
                Some(l) => Some(l@),
                None => None,
            },
            records(all@),
        ),
{
    let ghost listing: Option<Seq<char>> = match merged_listing {
        Some(l) => Some(l@),
        None => None,
    };
    let ghost views = records(all@);
    let n: usize = all.len();
    let mut out: Vec<PruneCandidate> = Vec::new();
    let mut i: usize = 0;
    for record in it: all
        invariant
            i == it.index(),
            it.seq() == all@,
            views == records(all@),
            n == all@.len(),
            listing == (match merged_listing {
                Some(l) => Some(l@),
                None => None,
            }),
            candidates(out@) == candidates_upto(repo@.workdir, listing, views, i as int),
    {
        if !record.is_main {
            let label = branch_label_of(&record);
            let name = short_name_of(repo, record.path.as_str(), label.as_str());
            let merged = match (&record.branch, merged_listing) {
                (Some(b), Some(l)) => branch_is_merged(l, b.as_str()),
                _ => false,
            };
            let candidate = PruneCandidate { record, name, merged };
            out.push(candidate);
        }
        i += 1;
    }
    out
}

/// The candidates that are merged, in their order: what a prune removes.
pub fn merged_only(all: Vec<PruneCandidate>) -> (out: Vec<PruneCandidate>)
    ensures
        candidates(out@) == prune_targets(candidates(all@)),
{
    let ghost views = candidates(all@);
    let n: usize = all.len();
    let mut out: Vec<PruneCandidate> = Vec::new();
    let mut i: usize = 0;
    for candidate in it: all
        invariant
            i == it.index(),
            it.seq() == all@,
            n == all@.len(),
            views == candidates(all@),
            candidates(out@) == merged_upto(views, i as int),
    {
        if candidate.merged {
            out.push(candidate);
        }
        i += 1;
    }
    out
}

} // verus!
