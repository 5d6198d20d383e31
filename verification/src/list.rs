//! Looking at the working copies: the plain list, and the list with the
//! cleanliness of each.

use vstd::prelude::*;
use vstd::string::StringExecFns;
use crate::error::{ErrorView, WorktreeError};
use crate::merge::{branch_label, branch_label_of};
use crate::output::{on_stdout, pieces, say_out, Hue, Piece, PieceView, Tint};
use crate::paths::{main_path, RepositoryHandle};
use crate::porcelain::{parsed, records, RecordView, WorktreeRecord};
use crate::protocol::{
    is_final, is_mutation, list_args, list_command, run, status_args, status_command, Action,
    ActionView, Event, EventView, Request, RequestView,
};
use crate::session::{
    halt_walk, in_hue, listing_result, plain, quietly, read_listing, say_colored, say_plain,
    silent, stop, stopped, walk_halted, walk_order, Stage, Walk, WalkStage, WalkView,
};
use crate::status::{
    aggregated, classify_check, cleanliness_of, entries_upto, Cleanliness, EntryView,
};
use crate::text::{decimal, decimal_text};

verus! {

/// The line above the working copies.
pub open spec fn header() -> Seq<PieceView> {
    seq![on_stdout(Tint::Bold, "Worktrees:"@), plain("\n"@)]
}

/// The path of `record` as it is shown: the primary working copy is
/// marked.
pub open spec fn place_piece(record: RecordView) -> PieceView {
    if record.is_main {
        in_hue(Hue::Green, record.path + " (main)"@)
    } else {
        in_hue(Hue::Yellow, record.path)
    }
}

/// The line of the plain list for `record`.
pub open spec fn list_line(record: RecordView) -> Seq<PieceView> {
    if record.is_bare {
        seq![plain("  "@), place_piece(record), plain(" [bare]\n"@)]
    } else {
        seq![
            plain("  "@),
            place_piece(record),
            plain(" ["@),
            in_hue(Hue::Cyan, branch_label(record.branch)),
            plain("]\n"@),
        ]
    }
}

/// The lines of the plain list for the first `n` records.
pub open spec fn list_lines(all: Seq<RecordView>, n: int) -> Seq<PieceView>
    decreases n,
{
    if n <= 0 {
        Seq::empty()
    } else {
        list_lines(all, n - 1) + list_line(all[n - 1])
    }
}

/// What the plain list says of the listing `stdout`: that there are no
/// working copies where it is empty, else a line for each record under
/// the header.
pub open spec fn listed(main: Seq<char>, stdout: Seq<char>) -> Seq<PieceView> {
    if stdout.len() == 0 {
        seq![plain("No worktrees found\n"@)]
    } else {
        header() + list_lines(parsed(main, stdout), parsed(main, stdout).len() as int)
    }
}

/// One step of the plain list.
pub open spec fn list_step(workdir: Seq<char>, stage: Stage, event: EventView) -> (
    Stage,
    ActionView,
) {
    match (stage, event) {
        (Stage::Start, EventView::Begin) => (Stage::Running, silent(run(workdir, list_args()))),
        (Stage::Running, EventView::Exited { success, stdout, stderr }) => if success {
            (
                Stage::Done,
                ActionView {
                    say: listed(main_path(workdir), stdout),
                    request: RequestView::Finish,
                },
            )
        } else {
            stopped(listing_result(main_path(workdir), event)->Err_0)
        },
        (Stage::Running, EventView::LaunchFailed { reason }) => stopped(
            listing_result(main_path(workdir), event)->Err_0,
        ),
        _ => stopped(ErrorView::UnexpectedEvent),
    }
}

/// The piece that shows how clean a working copy is.
pub open spec fn cleanliness_piece(cleanliness: Cleanliness) -> PieceView {
    match cleanliness {
        Cleanliness::Clean => in_hue(Hue::Green, "clean"@),
        Cleanliness::Dirty(n) => in_hue(
            Hue::Yellow,
            decimal(n as nat) + " uncommitted changes"@,
        ),
        Cleanliness::Unknown => in_hue(Hue::Red, "unknown"@),
        Cleanliness::Error => in_hue(Hue::Red, "error"@),
    }
}

/// The line of the status for `record`.
pub open spec fn status_line(record: RecordView, cleanliness: Cleanliness) -> Seq<PieceView> {
    seq![
        plain("  "@),
        place_piece(record),
        plain(" ["@),
        in_hue(Hue::Cyan, branch_label(record.branch)),
        plain("] - "@),
        cleanliness_piece(cleanliness),
        plain("\n"@),
    ]
}

/// The first record from `from` on that is not bare; the number of
/// records where there is none.
pub open spec fn next_checkable(all: Seq<RecordView>, from: int) -> int
    decreases all.len() - from,
{
    if from < 0 || from >= all.len() {
        from
    } else if !all[from].is_bare {
        from
    } else {
        next_checkable(all, from + 1)
    }
}

/// The status goes on after saying `said`: it asks for the check of the
/// next record from `walk.next` on that is not bare, or ends where none is
/// left.
pub open spec fn status_next(walk: WalkView, said: Seq<PieceView>) -> (WalkView, ActionView) {
    let k = next_checkable(walk.records, walk.next as int);
    if k < walk.records.len() {
        (
            WalkView { stage: WalkStage::Visiting, next: k as usize, ..walk },
            ActionView { say: said, request: run(walk.records[k].path, status_args()) },
        )
    } else {
        (
            WalkView { stage: WalkStage::Done, next: k as usize, ..walk },
            ActionView { say: said, request: RequestView::Finish },
        )
    }
}

/// One step of the status: the state and the action that follow `walk` on
/// `event`. The directory of each working copy that is not bare is
/// checked, in the order of the listing; a check that fails or cannot be
/// made is shown as such in its line and the next one follows.
pub open spec fn status_step(workdir: Seq<char>, walk: WalkView, event: EventView) -> (
    WalkView,
    ActionView,
) {
    match walk.stage {
        WalkStage::Start => match event {
            EventView::Begin => (
                WalkView { stage: WalkStage::Listing, ..walk },
                silent(run(workdir, list_args())),
            ),
            _ => walk_halted(walk, ErrorView::UnexpectedEvent),
        },
        WalkStage::Listing => match listing_result(main_path(workdir), event) {
            Ok(all) => status_next(WalkView { records: all, next: 0, ..walk }, header()),
            Err(error) => walk_halted(walk, error),
        },
        WalkStage::Visiting => if walk.next >= walk.records.len() {
            walk_halted(walk, ErrorView::UnexpectedEvent)
        } else if event is Exited || event is LaunchFailed {
            status_next(
                WalkView { next: (walk.next + 1) as usize, ..walk },
                status_line(walk.records[walk.next as int], cleanliness_of(event)),
            )
        } else {
            walk_halted(walk, ErrorView::UnexpectedEvent)
        },
        WalkStage::Done => walk_halted(walk, ErrorView::UnexpectedEvent),
    }
}

/// Every request of the status only looks: none has the tool change
/// anything, so a second status after the first sees what the first saw.
pub proof fn lemma_status_only_looks(workdir: Seq<char>, walk: WalkView, event: EventView)
    ensures
        !is_mutation(status_step(workdir, walk, event).1.request),
{
    reveal_strlit("worktree");
    reveal_strlit("list");
    reveal_strlit("add");
    reveal_strlit("remove");
    reveal_strlit("status");
    reveal_strlit("pull");
    let request = status_step(workdir, walk, event).1.request;
    if request is Run {
        let args = request->args;
        if args == list_args() {
            assert(args[1] == "list"@);
            assert("worktree"@[0] != "pull"@[0]);
        } else {
            assert(args[0] == "status"@);
        }
    }
}

/// The next record to check is at or after `from`, is not bare, and every
/// record passed over is bare.
pub proof fn lemma_next_checkable(all: Seq<RecordView>, from: int)
    requires
        0 <= from <= all.len(),
    ensures
        from <= next_checkable(all, from) <= all.len(),
        next_checkable(all, from) < all.len() ==> !all[next_checkable(all, from)].is_bare,
        forall|i: int| from <= i < next_checkable(all, from) ==> all[i].is_bare,
    decreases all.len() - from,
{
    if from < all.len() && all[from].is_bare {
        lemma_next_checkable(all, from + 1);
    }
}

/// The status checks the records that are not bare in the order of the
/// listing and ends: no step goes back to an earlier stage, each step
/// reaches a later stage or a later record, a check that fails does not
/// end the walk, and the walk is over exactly when the request is to
/// finish or to fail.
pub proof fn lemma_status_ends(workdir: Seq<char>, walk: WalkView, event: EventView)
    requires
        walk.records.len() <= usize::MAX,
        event is Exited ==> event->stdout.len() <= usize::MAX,
    ensures
        ({
            let next = status_step(workdir, walk, event).0;
            let request = status_step(workdir, walk, event).1.request;
            &&& walk_order(next.stage) >= walk_order(walk.stage)
            &&& walk.stage != WalkStage::Done ==> walk_order(next.stage) > walk_order(walk.stage)
                || (next.records == walk.records && next.next > walk.next)
            &&& next.stage == WalkStage::Visiting ==> next.next < next.records.len()
                && !next.records[next.next as int].is_bare && request == run(
                next.records[next.next as int].path,
                status_args(),
            )
            &&& walk.stage == WalkStage::Visiting && walk.next < walk.records.len() && (
            event is Exited || event is LaunchFailed) ==> !(request is Fail)
            &&& next.stage == WalkStage::Done <==> is_final(request)
        }),
{
    match walk.stage {
        WalkStage::Listing => {
            if listing_result(main_path(workdir), event) is Ok {
                let all = listing_result(main_path(workdir), event)->Ok_0;
                crate::porcelain::lemma_parsed_is_short(main_path(workdir), event->stdout);
                lemma_next_checkable(all, 0);
            }
        },
        WalkStage::Visiting => {
            if walk.next < walk.records.len() {
                lemma_next_checkable(walk.records, walk.next + 1);
            }
        },
        _ => {},
    }
}

/// The lines of the status for the first `n` entries.
pub open spec fn entry_lines(all: Seq<EntryView>, n: int) -> Seq<PieceView>
    decreases n,
{
    if n <= 0 {
        Seq::empty()
    } else {
        entry_lines(all, n - 1) + status_line(all[n - 1].record, all[n - 1].cleanliness)
    }
}

/// What the status says from `walk` on when its requests are answered by
/// `answers`, one after the other, until it ends or the answers run out.
pub open spec fn status_said(workdir: Seq<char>, walk: WalkView, answers: Seq<EventView>) -> Seq<
    PieceView,
>
    decreases answers.len(),
{
    if answers.len() == 0 {
        Seq::empty()
    } else {
        let step = status_step(workdir, walk, answers[0]);
        if is_final(step.1.request) {
            step.1.say
        } else {
            step.1.say + status_said(workdir, step.0, answers.drop_first())
        }
    }
}

/// The entries for more records begin with the entries for fewer.
proof fn lemma_entries_grow(all: Seq<RecordView>, checks: Seq<EventView>, m: int, n: int)
    requires
        0 <= m <= n,
    ensures
        entries_upto(all, checks, m).len() <= entries_upto(all, checks, n).len(),
        forall|i: int|
            0 <= i < entries_upto(all, checks, m).len() ==> entries_upto(all, checks, m)[i]
                == entries_upto(all, checks, n)[i],
    decreases n - m,
{
    if m < n {
        lemma_entries_grow(all, checks, m, n - 1);
    }
}

/// Bare records add no entries.
proof fn lemma_bare_records_add_nothing(
    all: Seq<RecordView>,
    checks: Seq<EventView>,
    m: int,
    n: int,
)
    requires
        0 <= m <= n <= all.len(),
        forall|i: int| m <= i < n ==> all[i].is_bare,
    ensures
        entries_upto(all, checks, n) == entries_upto(all, checks, m),
    decreases n - m,
{
    if m < n {
        lemma_bare_records_add_nothing(all, checks, m, n - 1);
    }
}

/// From the record `at` on the status says the lines of the entries that
/// are left.
proof fn lemma_status_says_the_rest(
    workdir: Seq<char>,
    all: Seq<RecordView>,
    checks: Seq<EventView>,
    at: int,
)
    requires
        all.len() <= usize::MAX,
        0 <= at < all.len(),
        !all[at].is_bare,
        checks.len() == aggregated(all, checks).len(),
        forall|i: int| 0 <= i < checks.len() ==> checks[i] is Exited || checks[i] is LaunchFailed,
    ensures
        ({
            let entries = aggregated(all, checks);
            let k = entries_upto(all, checks, at).len() as int;
            let walk = WalkView { stage: WalkStage::Visiting, records: all, next: at as usize };
            entry_lines(entries, k) + status_said(workdir, walk, checks.skip(k)) == entry_lines(
                entries,
                entries.len() as int,
            )
        }),
    decreases all.len() - at,
{
    // The entry for this record is the next one, and the records up to
    // the next one to check add none.
    let k = entries_upto(all, checks, at).len() as int;
    let to = next_checkable(all, at + 1);
    lemma_entries_grow(all, checks, at + 1, all.len() as int);
    lemma_next_checkable(all, at + 1);
    lemma_bare_records_add_nothing(all, checks, at + 1, to);
    if to < all.len() {
        lemma_status_says_the_rest(workdir, all, checks, to);
        assert(checks.skip(k).drop_first() =~= checks.skip(k + 1));
    }
}

/// The status says what the aggregate holds: where the listing is
/// answered and then each check, as many as there are records that are not
/// bare, the status says the header and then, for each entry of the
/// aggregate of the records and the checks, that entry's line.
pub proof fn lemma_status_says_the_aggregate(
    workdir: Seq<char>,
    walk: WalkView,
    listing: Seq<char>,
    checks: Seq<EventView>,
)
    requires
        walk.stage == WalkStage::Listing,
        listing.len() <= usize::MAX,
        checks.len() == aggregated(parsed(main_path(workdir), listing), checks).len(),
        forall|i: int| 0 <= i < checks.len() ==> checks[i] is Exited || checks[i] is LaunchFailed,
    ensures
        ({
            let listed = EventView::Exited { success: true, stdout: listing, stderr: Seq::empty() };
            let entries = aggregated(parsed(main_path(workdir), listing), checks);
            status_said(workdir, walk, seq![listed] + checks) == header() + entry_lines(
                entries,
                entries.len() as int,
            )
        }),
{
    let listed = EventView::Exited { success: true, stdout: listing, stderr: Seq::empty() };
    let all = parsed(main_path(workdir), listing);
    let to = next_checkable(all, 0);
    crate::porcelain::lemma_parsed_is_short(main_path(workdir), listing);
    lemma_next_checkable(all, 0);
    lemma_bare_records_add_nothing(all, checks, 0, to);
    assert((seq![listed] + checks).drop_first() =~= checks);
    if to < all.len() {
        lemma_status_says_the_rest(workdir, all, checks, to);
        assert(checks.skip(0) =~= checks);
    }
}

/// Says the header.
fn say_header(say: &mut Vec<Piece>)
    ensures
        pieces(final(say)@) == pieces(old(say)@) + header(),
{
    say_out(say, Tint::Bold, String::from_str("Worktrees:"));
    say_plain(say, "\n");
}

/// Says two spaces and the path of `record`.
fn say_place(say: &mut Vec<Piece>, record: &WorktreeRecord)
    ensures
        pieces(final(say)@) == pieces(old(say)@).push(plain("  "@)).push(place_piece(record@)),
{
    say_plain(say, "  ");
    if record.is_main {
        let mut text = record.path.clone();
        text.append(" (main)");
        say_out(say, Tint::Colored(Hue::Green), text);
    } else {
        say_colored(say, Hue::Yellow, record.path.as_str());
    }
}

/// Says the line of the plain list for `record`.
fn say_list_line(say: &mut Vec<Piece>, record: &WorktreeRecord)
    ensures
        pieces(final(say)@) == pieces(old(say)@) + list_line(record@),
{
    say_place(say, record);
    if record.is_bare {
        say_plain(say, " [bare]\n");
    } else {
        say_plain(say, " [");
        say_colored(say, Hue::Cyan, branch_label_of(record).as_str());
        say_plain(say, "]\n");
    }
}

/// Says the line of the status for `record`.
fn say_status_line(say: &mut Vec<Piece>, record: &WorktreeRecord, cleanliness: Cleanliness)
    ensures
        pieces(final(say)@) == pieces(old(say)@) + status_line(record@, cleanliness),
{
    say_place(say, record);
    say_plain(say, " [");
    say_colored(say, Hue::Cyan, branch_label_of(record).as_str());
    say_plain(say, "] - ");
    match cleanliness {
        Cleanliness::Clean => say_colored(say, Hue::Green, "clean"),
        Cleanliness::Dirty(n) => {
            let mut text = decimal_text(n);
            text.append(" uncommitted changes");
            say_out(say, Tint::Colored(Hue::Yellow), text);
        },
        Cleanliness::Unknown => say_colored(say, Hue::Red, "unknown"),
        Cleanliness::Error => say_colored(say, Hue::Red, "error"),
    }
    say_plain(say, "\n");
}

/// What the plain list says of the listing `stdout`.
fn say_listed(repo: &RepositoryHandle, stdout: &str) -> (say: Vec<Piece>)
    ensures
        pieces(say@) == listed(main_path(repo@.workdir), stdout@),
{
    let mut say: Vec<Piece> = Vec::new();
    if stdout.unicode_len() == 0 {
        say_plain(&mut say, "No worktrees found\n");
        return say;
    }
    let all = crate::porcelain::parse(repo, stdout);
    let ghost views = records(all@);
    say_header(&mut say);
    let mut i: usize = 0;
    while i < all.len()
        invariant
            i <= all.len(),
            views == records(all@),
            pieces(say@) == header() + list_lines(views, i as int),
        decreases all.len() - i,
    {
        say_list_line(&mut say, &all[i]);
        i += 1;
    }
    say
}

/// One step of the plain list of the working copies. The first step takes
/// `Stage::Start` and `Event::Begin`; the second the stage that the first
/// returned and the event that answers its request.
pub fn list_worktrees(repo: &RepositoryHandle, stage: Stage, event: &Event) -> (r: (
    Stage,
    Action,
))
    ensures
        r.0 == list_step(repo@.workdir, stage, event@).0,
        r.1@ == list_step(repo@.workdir, stage, event@).1,
{
    match (stage, event) {
        (Stage::Start, Event::Begin) => (
            Stage::Running,
            quietly(Request::Run { dir: String::from_str(repo.workdir()), args: list_command() }),
        ),
        (Stage::Running, Event::Exited { success, stdout, stderr }) => {
            if *success {
                let say = say_listed(repo, stdout.as_str());
                (Stage::Done, Action { say, request: Request::Finish })
            } else {
                match read_listing(repo, event) {
                    Err(error) => stop(error),
                    Ok(_) => stop(WorktreeError::UnexpectedEvent),
                }
            }
        },
        (Stage::Running, Event::LaunchFailed { reason }) => {
            match read_listing(repo, event) {
                Err(error) => stop(error),
                Ok(_) => stop(WorktreeError::UnexpectedEvent),
            }
        },
        _ => stop(WorktreeError::UnexpectedEvent),
    }
}

/// The status goes on after saying `say`.
fn go_on(walk: Walk, say: Vec<Piece>) -> (r: (Walk, Action))
    ensures
        r.0@ == status_next(walk@, pieces(say@)).0,
        r.1@ == status_next(walk@, pieces(say@)).1,
{
    let mut walk = walk;
    let ghost all = records(walk.records@);
    let ghost from = walk.next as int;
    let mut k: usize = walk.next;
    while k < walk.records.len() && walk.records[k].is_bare
        invariant
            all == records(walk.records@),
            from <= k,
            next_checkable(all, from) == next_checkable(all, k as int),
        decreases walk.records.len() - k,
    {
        k += 1;
    }
    walk.next = k;
    if k < walk.records.len() {
        let request = Request::Run { dir: walk.records[k].path.clone(), args: status_command() };
        walk.stage = WalkStage::Visiting;
        (walk, Action { say, request })
    } else {
        walk.stage = WalkStage::Done;
        (walk, Action { say, request: Request::Finish })
    }
}

/// One step of the status of the working copies. The first step takes a
/// new walk and `Event::Begin`; each further step takes the walk that the
/// step before returned and the event that answers its request, until the
/// request is to finish or to fail.
pub fn show_worktrees_status(repo: &RepositoryHandle, walk: Walk, event: &Event) -> (r: (
    Walk,
    Action,
))
    ensures
        r.0@ == status_step(repo@.workdir, walk@, event@).0,
        r.1@ == status_step(repo@.workdir, walk@, event@).1,
{
    match walk.stage {
        WalkStage::Start => match event {
            Event::Begin => {
                let mut walk = walk;
                walk.stage = WalkStage::Listing;
                (
                    walk,
                    quietly(
                        Request::Run {
                            dir: String::from_str(repo.workdir()),
                            args: list_command(),
                        },
                    ),
                )
            },
            _ => halt_walk(walk, WorktreeError::UnexpectedEvent),
        },
        WalkStage::Listing => match read_listing(repo, event) {
            Ok(all) => {
                let mut say: Vec<Piece> = Vec::new();
                say_header(&mut say);
                go_on(Walk { stage: walk.stage, records: all, next: 0 }, say)
            },
            Err(error) => halt_walk(walk, error),
        },
        WalkStage::Visiting => {
            if walk.next >= walk.records.len() {
                return halt_walk(walk, WorktreeError::UnexpectedEvent);
            }
            match event {
                Event::Exited { .. } | Event::LaunchFailed { .. } => {
                    let mut say: Vec<Piece> = Vec::new();
                    let record = &walk.records[walk.next];
                    say_status_line(&mut say, record, classify_check(event));
                    let mut walk = walk;
                    walk.next = walk.next + 1;
                    go_on(walk, say)
                },
                _ => halt_walk(walk, WorktreeError::UnexpectedEvent),
            }
        },
        WalkStage::Done => halt_walk(walk, WorktreeError::UnexpectedEvent),
    }
}

} // verus!
