//! How clean each working copy is: the records of the listing, each with
//! what the check of its directory said.

use vstd::prelude::*;
use crate::porcelain::{records, RecordView, WorktreeRecord};
use crate::protocol::{Event, EventView};
use crate::text::{chars_of, lines_of, rows, split_lines, trim_space, trimmed};

verus! {

/// What the check of a working copy's directory said.
#[derive(Clone, Copy, Debug, PartialEq, Eq, Structural)]
pub enum Cleanliness {
    /// Nothing is changed.
    Clean,
    /// So many files are changed or untracked.
    Dirty(usize),
    /// The check could not be made.
    Unknown,
    /// The check was made and failed.
    Error,
}

/// A working copy with its cleanliness.
#[derive(Debug, PartialEq, Eq)]
pub struct StatusEntry {
    pub record: WorktreeRecord,
    pub cleanliness: Cleanliness,
}

/// A `StatusEntry` as character sequences.
pub struct EntryView {
    pub record: RecordView,
    pub cleanliness: Cleanliness,
}

impl View for StatusEntry {
    type V = EntryView;

    open spec fn view(&self) -> EntryView {
        EntryView { record: self.record@, cleanliness: self.cleanliness }
    }
}

/// The views of the entries in `v`.
pub open spec fn entries(v: Seq<StatusEntry>) -> Seq<EntryView> {
    Seq::new(v.len(), |i: int| v[i]@)
}

/// The views of the events in `v`.
pub open spec fn events(v: Seq<Event>) -> Seq<EventView> {
    Seq::new(v.len(), |i: int| v[i]@)
}

/// What a check that ended with `check` says. Output that is empty but for
/// white space means clean; other output means dirty, with one line for
/// each file; a check that ran and failed is an error; a check that did
/// not run leaves the state unknown.
pub open spec fn cleanliness_of(check: EventView) -> Cleanliness {
    match check {
        EventView::Exited { success, stdout, stderr } => if !success {
            Cleanliness::Error
        } else if trim_space(stdout).len() == 0 {
            Cleanliness::Clean
        } else {
            Cleanliness::Dirty(lines_of(stdout).len() as usize)
        },
        _ => Cleanliness::Unknown,
    }
}

/// The entries for the first `n` records. A bare record has no directory
/// to check and gets no entry. The others take the checks in order: the
/// first of them the first check, and so on; one for which no check is
/// left is unknown.
pub open spec fn entries_upto(all: Seq<RecordView>, checks: Seq<EventView>, n: int) -> Seq<
    EntryView,
>
    decreases n,
{
    if n <= 0 {
        Seq::empty()
    } else {
        let before = entries_upto(all, checks, n - 1);
        if all[n - 1].is_bare {
            before
        } else {
            before.push(
                EntryView {
                    record: all[n - 1],
                    cleanliness: if before.len() < checks.len() {
                        cleanliness_of(checks[before.len() as int])
                    } else {
                        Cleanliness::Unknown
                    },
                },
            )
        }
    }
}

/// The entries for `all`.
pub open spec fn aggregated(all: Seq<RecordView>, checks: Seq<EventView>) -> Seq<EntryView> {
    entries_upto(all, checks, all.len() as int)
}

/// The records that get an entry are those that are not bare, in their
/// order.
pub proof fn lemma_entries_keep_order(
    all: Seq<RecordView>,
    checks: Seq<EventView>,
    n: int,
    i: int,
    j: int,
)
    requires
        0 <= n <= all.len(),
        0 <= i < j < entries_upto(all, checks, n).len(),
    ensures
        exists|a: int, b: int|
            0 <= a < b < n && all[a] == entries_upto(all, checks, n)[i].record && all[b]
                == entries_upto(all, checks, n)[j].record,
    decreases n,
{
    let before = entries_upto(all, checks, n - 1);
    if j < before.len() {
        lemma_entries_keep_order(all, checks, n - 1, i, j);
    } else {
        lemma_entry_has_record(all, checks, n - 1, i);
    }
}

/// Each entry is for one of the records, and that record is not bare.
pub proof fn lemma_entry_has_record(all: Seq<RecordView>, checks: Seq<EventView>, n: int, i: int)
    requires
        0 <= n <= all.len(),
        0 <= i < entries_upto(all, checks, n).len(),
    ensures
        !entries_upto(all, checks, n)[i].record.is_bare,
        exists|a: int| 0 <= a < n && all[a] == entries_upto(all, checks, n)[i].record,
    decreases n,
{
    let before = entries_upto(all, checks, n - 1);
    if i < before.len() {
        lemma_entry_has_record(all, checks, n - 1, i);
    }
}

/// The same records with the same checks give the same entries: a second
/// look at working copies that nothing has touched classifies each as the
/// first did.
pub proof fn lemma_same_checks_same_entries(
    all: Seq<RecordView>,
    first: Seq<EventView>,
    second: Seq<EventView>,
)
    requires
        first.len() == second.len(),
        forall|i: int| 0 <= i < first.len() ==> first[i] == second[i],
    ensures
        aggregated(all, first) == aggregated(all, second),
{
    assert(first =~= second);
}

/// What a check that ended with `check` says.
pub fn classify_check(check: &Event) -> (r: Cleanliness)
    ensures
        r == cleanliness_of(check@),
{
    match check {
        Event::Exited { success, stdout, stderr } => {
            if !*success {
                Cleanliness::Error
            } else {
                let chars = chars_of(stdout.as_str());
                let t = trimmed(&chars);
                if t.len() == 0 {
                    Cleanliness::Clean
                } else {
                    let lines = split_lines(&chars);
                    Cleanliness::Dirty(lines.len())
                }
            }
        },
        _ => Cleanliness::Unknown,
    }
}

/// The status of the working copies: an entry for each record that is not
/// bare, in the order of the listing, with what its check said.
pub fn aggregate(all: Vec<WorktreeRecord>, checks: &Vec<Event>) -> (out: Vec<StatusEntry>)
    ensures
        entries(out@) == aggregated(records(all@), events(checks@)),
{
    let ghost views = records(all@);
    let ghost answers = events(checks@);
    let n: usize = all.len();
    let mut out: Vec<StatusEntry> = Vec::new();
    let mut i: usize = 0;
    for record in it: all
        invariant
            i == it.index(),
            it.seq() == all@,
            n == all@.len(),
            views == records(all@),
            answers == events(checks@),
            out@.len() <= i,
            entries(out@) == entries_upto(views, answers, i as int),
    {
        if !record.is_bare {
            let k: usize = out.len();
            let cleanliness = if k < checks.len() {
                classify_check(&checks[k])
            } else {
                Cleanliness::Unknown
            };
            out.push(StatusEntry { record, cleanliness });
        }
        i += 1;
    }
    out
}

} // verus!
