use vstd::prelude::*;

use crate::dashboard::{
    DashboardView, Flow, LOG_LIMIT, Status, all_done_marker, copying_marker, flow_of, next_view,
    quit_log,
};
use crate::events::{AppEventView, TransferStat};
use crate::text::{contains_spec, decimal_spec, digit_char, lemma_contains_at, strip_prefix_spec};
use crate::paths::{db_dir_spec, path_joined, path_parent_of, path_strip_prefix_of, sqlite_scheme};
use crate::transfer::{
    ActionView, DbCommandView, FileView, JobEventView, JobPhase, JobStatus, all_done_log, awaits,
    closing_spec, copying_log, discover_spec, size_column, step_spec,
};

verus! {

/// The dashboard after it took `events` in order.
pub open spec fn apply_events(d: DashboardView, events: Seq<AppEventView>) -> DashboardView
    decreases events.len(),
{
    if events.len() == 0 {
        d
    } else {
        apply_events(next_view(d, events[0]), events.drop_first())
    }
}

/// How many of `events` report outcome `s`.
pub open spec fn count_stat(events: Seq<AppEventView>, s: TransferStat) -> nat
    decreases events.len(),
{
    if events.len() == 0 {
        0
    } else {
        (if events[0] == AppEventView::StatsUpdate(s) { 1nat } else { 0nat }) + count_stat(events.drop_first(), s)
    }
}

/// While the dashboard takes anything but a quit request, it never keeps more
/// than `LOG_LIMIT + 1` log lines.
pub proof fn law_log_bound(d: DashboardView, e: AppEventView)
    requires
        d.logs.len() <= LOG_LIMIT + 1,
        !(e is Quit),
    ensures
        next_view(d, e).logs.len() <= LOG_LIMIT + 1,
{
}

/// A logged message becomes the newest log line, and every line kept before
/// it is one that was kept already, in the same order.
pub proof fn law_log_appends(d: DashboardView, msg: Seq<char>)
    ensures
        next_view(d, AppEventView::Log(msg)).logs.last() == msg,
        next_view(d, AppEventView::Log(msg)).logs.drop_last() =~= (if d.logs.len() > LOG_LIMIT {
            d.logs.drop_first()
        } else {
            d.logs
        }),
{
}

/// Only a quit request stops the event loop.
pub proof fn law_only_quit_stops(e: AppEventView)
    ensures
        (flow_of(e) is Shutdown) <==> (e is Quit),
{
}

/// Over any run of events, each counter grows by exactly the number of events
/// that report its outcome.
pub proof fn law_counters_count(d: DashboardView, events: Seq<AppEventView>)
    ensures
        apply_events(d, events).completed == d.completed + count_stat(events, TransferStat::Completed),
        apply_events(d, events).skipped == d.skipped + count_stat(events, TransferStat::Skipped),
        apply_events(d, events).failed == d.failed + count_stat(events, TransferStat::Failed),
    decreases events.len(),
{
    if events.len() > 0 {
        law_counters_count(next_view(d, events[0]), events.drop_first());
    }
}

/// Once a transfer run has sent its closing notes, the dashboard reports the
/// transfer as finished with no file in progress, whatever it showed before.
pub proof fn law_closing_finishes(d: DashboardView)
    ensures
        apply_events(d, closing_spec()).status == Status::Finished,
        apply_events(d, closing_spec()).current_file is None,
        apply_events(d, closing_spec()).logs.last() == all_done_log(),
{
    reveal_strlit("Todas as transferencias foram processadas!");
    reveal_strlit("Todas as transferencias");
    reveal_strlit("Copiando:");
    let msg = all_done_log();
    lemma_contains_at(msg, all_done_marker(), 0);
    assert forall|i: int| 0 <= i < msg.len() implies msg[i] != 'C' by {}
    if contains_spec(msg, copying_marker()) {
        let i = choose|i: int|
            0 <= i <= msg.len() - copying_marker().len() && #[trigger] msg.subrange(i, i + copying_marker().len())
                == copying_marker();
        assert(msg.subrange(i, i + copying_marker().len())[0] == 'C');
        assert(msg[i] == 'C');
    }
    let es = closing_spec();
    assert(es.drop_first() =~= seq![AppEventView::Log(msg)]);
    assert(es.drop_first().drop_first() =~= Seq::<AppEventView>::empty());
    let d1 = next_view(d, es[0]);
    let d2 = next_view(d1, es.drop_first()[0]);
    reveal_with_fuel(apply_events, 3);
    assert(apply_events(d, es) == d2);
}

/// When a worker announces the file it starts copying, the dashboard shows that
/// file and the status line says a file is being transferred.
pub proof fn law_copying_shown(d: DashboardView, src: Seq<char>)
    ensures
        ({
            let after = apply_events(
                d,
                seq![AppEventView::CurrentFile(Some(src)), AppEventView::Log(copying_log(src))],
            );
            &&& after.current_file == Some(src)
            &&& after.status == Status::Transferring
            &&& after.logs.last() == copying_log(src)
        }),
{
    reveal_strlit("Copiando: ");
    reveal_strlit("Copiando:");
    let msg = copying_log(src);
    lemma_contains_at(msg, copying_marker(), 0);
    let es = seq![AppEventView::CurrentFile(Some(src)), AppEventView::Log(msg)];
    assert(es.drop_first() =~= seq![AppEventView::Log(msg)]);
    assert(es.drop_first().drop_first() =~= Seq::<AppEventView>::empty());
    let d1 = next_view(d, es[0]);
    let d2 = next_view(d1, es.drop_first()[0]);
    reveal_with_fuel(apply_events, 3);
    assert(apply_events(d, es) == d2);
}

/// Removing a prefix and putting it back gives the text again.
pub proof fn law_strip_prefix_restores(text: Seq<char>, prefix: Seq<char>)
    ensures
        strip_prefix_spec(text, prefix) matches Some(rest) ==> prefix + rest =~= text,
        strip_prefix_spec(prefix + text, prefix) == Some(text),
{
    assert((prefix + text).subrange(0, prefix.len() as int) =~= prefix);
    assert((prefix + text).subrange(prefix.len() as int, (prefix + text).len() as int) =~= text);
}

/// How many steps a job in phase `p` can still take.
pub open spec fn phase_rank(p: JobPhase) -> nat {
    match p {
        JobPhase::Discovered => 3,
        JobPhase::Registering => 2,
        JobPhase::Copying(_) => 1,
        JobPhase::Done => 0,
    }
}

/// Every step moves a job strictly closer to `Done`, so a job ends after at
/// most three reports, and a finished job takes none.
pub proof fn law_job_advances(f: FileView, p: JobPhase, e: JobEventView)
    requires
        awaits(p, e),
    ensures
        phase_rank(step_spec(f, p, e).0) < phase_rank(p),
{
}

/// The events among `actions` that go to the dashboard, in order.
pub open spec fn notifications(actions: Seq<ActionView>) -> Seq<AppEventView>
    decreases actions.len(),
{
    if actions.len() == 0 {
        Seq::empty()
    } else {
        let rest = notifications(actions.drop_first());
        match actions[0] {
            ActionView::Notify(e) => seq![e] + rest,
            _ => rest,
        }
    }
}

/// The statuses that `actions` write to the queue table, in order.
pub open spec fn written_statuses(actions: Seq<ActionView>) -> Seq<JobStatus>
    decreases actions.len(),
{
    if actions.len() == 0 {
        Seq::empty()
    } else {
        let rest = written_statuses(actions.drop_first());
        match actions[0] {
            ActionView::Db(DbCommandView::RecordFileStatus { status, .. }) => seq![status] + rest,
            ActionView::Db(DbCommandView::UpsertFile { status, .. }) => seq![status] + rest,
            ActionView::Db(DbCommandView::UpdateStatus { status, .. }) => seq![status] + rest,
            _ => rest,
        }
    }
}

/// Everything a job does for file `f`, given what the outside world reports:
/// whether the destination exists, the registration result, the copy result.
/// Reports that the job no longer waits for are not taken.
pub open spec fn run_spec(
    f: FileView,
    dest_exists: bool,
    registered: Result<i64, Seq<char>>,
    copied: Result<(), Seq<char>>,
) -> Seq<ActionView> {
    let s1 = step_spec(f, JobPhase::Discovered, JobEventView::Checked { dest_exists });
    if s1.0 == JobPhase::Done {
        s1.1
    } else {
        let s2 = step_spec(f, s1.0, JobEventView::Registered(registered));
        if s2.0 == JobPhase::Done {
            s1.1 + s2.1
        } else {
            s1.1 + s2.1 + step_spec(f, s2.0, JobEventView::Copied(copied)).1
        }
    }
}

/// The outcome a job reports, if any.
pub open spec fn run_outcome(
    dest_exists: bool,
    registered: Result<i64, Seq<char>>,
    copied: Result<(), Seq<char>>,
) -> Option<TransferStat> {
    if dest_exists {
        Some(TransferStat::Skipped)
    } else if registered is Err {
        None
    } else if copied is Ok {
        Some(TransferStat::Completed)
    } else {
        Some(TransferStat::Failed)
    }
}

proof fn lemma_notifications_concat(a: Seq<ActionView>, b: Seq<ActionView>)
    ensures
        notifications(a + b) == notifications(a) + notifications(b),
    decreases a.len(),
{
    if a.len() == 0 {
        assert(a + b =~= b);
        assert(notifications(a) + notifications(b) =~= notifications(b));
    } else {
        assert((a + b).drop_first() =~= a.drop_first() + b);
        lemma_notifications_concat(a.drop_first(), b);
        assert(notifications(a + b) =~= notifications(a) + notifications(b));
    }
}

proof fn lemma_statuses_concat(a: Seq<ActionView>, b: Seq<ActionView>)
    ensures
        written_statuses(a + b) == written_statuses(a) + written_statuses(b),
    decreases a.len(),
{
    if a.len() == 0 {
        assert(a + b =~= b);
        assert(written_statuses(a) + written_statuses(b) =~= written_statuses(b));
    } else {
        assert((a + b).drop_first() =~= a.drop_first() + b);
        lemma_statuses_concat(a.drop_first(), b);
        assert(written_statuses(a + b) =~= written_statuses(a) + written_statuses(b));
    }
}

proof fn lemma_count_concat(a: Seq<AppEventView>, b: Seq<AppEventView>, s: TransferStat)
    ensures
        count_stat(a + b, s) == count_stat(a, s) + count_stat(b, s),
    decreases a.len(),
{
    if a.len() == 0 {
        assert(a + b =~= b);
    } else {
        assert((a + b).drop_first() =~= a.drop_first() + b);
        lemma_count_concat(a.drop_first(), b, s);
    }
}

/// The table status that stands for an outcome; a job that could not be
/// registered leaves its row `Processing`.
pub open spec fn status_of_outcome(o: Option<TransferStat>) -> JobStatus {
    match o {
        Some(TransferStat::Skipped) => JobStatus::Skipped,
        Some(TransferStat::Completed) => JobStatus::Completed,
        Some(TransferStat::Failed) => JobStatus::Failed,
        None => JobStatus::Processing,
    }
}

/// A job reports exactly one outcome (none where its row could not be
/// registered), the last status it writes to the table is that outcome, and a
/// job that announced its file as current clears it again as its last note.
pub proof fn law_run_outcome(
    f: FileView,
    dest_exists: bool,
    registered: Result<i64, Seq<char>>,
    copied: Result<(), Seq<char>>,
)
    ensures
        ({
            let run = run_spec(f, dest_exists, registered, copied);
            let notes = notifications(run);
            let o = run_outcome(dest_exists, registered, copied);
            &&& forall|s: TransferStat| #[trigger] count_stat(notes, s) == (if o == Some(s) { 1nat } else { 0nat })
            &&& written_statuses(run).len() > 0
            &&& written_statuses(run).last() == status_of_outcome(o)
            &&& (!dest_exists && registered is Ok) ==> {
                &&& notes[0] == AppEventView::CurrentFile(Some(f.source))
                &&& notes.last() == AppEventView::CurrentFile(None)
            }
        }),
{
    let s1 = step_spec(f, JobPhase::Discovered, JobEventView::Checked { dest_exists });
    reveal_with_fuel(notifications, 5);
    reveal_with_fuel(written_statuses, 5);
    reveal_with_fuel(count_stat, 5);
    let n1 = notifications(s1.1);
    let w1 = written_statuses(s1.1);
    if s1.0 == JobPhase::Done {
        assert(s1.1.drop_first().drop_first().drop_first() =~= Seq::<ActionView>::empty());
        assert(s1.1.drop_first().drop_first() =~= seq![s1.1[2]]);
        assert(s1.1.drop_first() =~= seq![s1.1[1], s1.1[2]]);
        assert(n1 =~= seq![s1.1[1]->Notify_0, s1.1[2]->Notify_0]);
        assert(w1 =~= seq![JobStatus::Skipped]);
        assert(n1.drop_first() =~= seq![s1.1[2]->Notify_0]);
        assert(n1.drop_first().drop_first() =~= Seq::<AppEventView>::empty());
    } else {
        assert(s1.1.drop_first() =~= Seq::<ActionView>::empty());
        assert(n1 =~= Seq::<AppEventView>::empty());
        assert(w1 =~= seq![JobStatus::Processing]);
        let s2 = step_spec(f, s1.0, JobEventView::Registered(registered));
        lemma_notifications_concat(s1.1, s2.1);
        lemma_statuses_concat(s1.1, s2.1);
        let n2 = notifications(s2.1);
        let w2 = written_statuses(s2.1);
        if s2.0 == JobPhase::Done {
            assert(s2.1.drop_first() =~= Seq::<ActionView>::empty());
            assert(n2 =~= seq![s2.1[0]->Notify_0]);
            assert(w2 =~= Seq::<JobStatus>::empty());
            assert(n1 + n2 =~= n2);
            assert(w1 + w2 =~= w1);
            assert(n2.drop_first() =~= Seq::<AppEventView>::empty());
        } else {
            assert(s2.1.drop_first().drop_first().drop_first() =~= Seq::<ActionView>::empty());
            assert(s2.1.drop_first().drop_first() =~= seq![s2.1[2]]);
            assert(s2.1.drop_first() =~= seq![s2.1[1], s2.1[2]]);
            assert(n2 =~= seq![s2.1[0]->Notify_0, s2.1[1]->Notify_0]);
            assert(w2 =~= Seq::<JobStatus>::empty());
            let s3 = step_spec(f, s2.0, JobEventView::Copied(copied));
            lemma_notifications_concat(s1.1 + s2.1, s3.1);
            lemma_statuses_concat(s1.1 + s2.1, s3.1);
            let n3 = notifications(s3.1);
            let w3 = written_statuses(s3.1);
            assert(s3.1.drop_first().drop_first().drop_first().drop_first() =~= Seq::<ActionView>::empty());
            assert(s3.1.drop_first().drop_first().drop_first() =~= seq![s3.1[3]]);
            assert(s3.1.drop_first().drop_first() =~= seq![s3.1[2], s3.1[3]]);
            assert(s3.1.drop_first() =~= seq![s3.1[1], s3.1[2], s3.1[3]]);
            assert(n3 =~= seq![s3.1[1]->Notify_0, s3.1[2]->Notify_0, s3.1[3]->Notify_0]);
            assert(w3 =~= seq![status_of_outcome(run_outcome(dest_exists, registered, copied))]);
            let notes = n1 + n2 + n3;
            assert(notes =~= seq![n2[0], n2[1], n3[0], n3[1], n3[2]]);
            assert forall|s: TransferStat| #[trigger] count_stat(notes, s) == (if run_outcome(
                dest_exists,
                registered,
                copied,
            ) == Some(s) { 1nat } else { 0nat }) by {
                lemma_count_concat(n2, n3, s);
                assert(n2.drop_first() =~= seq![n2[1]]);
                assert(n2.drop_first().drop_first() =~= Seq::<AppEventView>::empty());
                assert(n3.drop_first() =~= seq![n3[1], n3[2]]);
                assert(n3.drop_first().drop_first() =~= seq![n3[2]]);
                assert(n3.drop_first().drop_first().drop_first() =~= Seq::<AppEventView>::empty());
                assert(n1 + n2 =~= n2);
            }
        }
    }
}

/// The dashboard counts the outcome of every job whose notes it takes: the
/// counter of that outcome grows by one and the other two stay.
pub proof fn law_run_counted(
    d: DashboardView,
    f: FileView,
    dest_exists: bool,
    registered: Result<i64, Seq<char>>,
    copied: Result<(), Seq<char>>,
)
    ensures
        ({
            let after = apply_events(d, notifications(run_spec(f, dest_exists, registered, copied)));
            let o = run_outcome(dest_exists, registered, copied);
            &&& after.completed == d.completed + (if o == Some(TransferStat::Completed) { 1nat } else { 0nat })
            &&& after.skipped == d.skipped + (if o == Some(TransferStat::Skipped) { 1nat } else { 0nat })
            &&& after.failed == d.failed + (if o == Some(TransferStat::Failed) { 1nat } else { 0nat })
        }),
{
    let notes = notifications(run_spec(f, dest_exists, registered, copied));
    law_run_outcome(f, dest_exists, registered, copied);
    law_counters_count(d, notes);
}

/// The sum of the chunk sizes.
pub open spec fn chunks_sum(chunks: Seq<nat>) -> int
    decreases chunks.len(),
{
    if chunks.len() == 0 {
        0
    } else {
        chunks[0] + chunks_sum(chunks.drop_first())
    }
}

/// The totals reported after each chunk, starting from `start` bytes.
pub open spec fn progress_reports(start: int, chunks: Seq<nat>) -> Seq<int>
    decreases chunks.len(),
{
    if chunks.len() == 0 {
        Seq::empty()
    } else {
        let t = start + chunks[0];
        seq![t] + progress_reports(t, chunks.drop_first())
    }
}

/// While a file is copied in non-empty chunks, the reported progress only
/// grows, and the last report is the number of bytes copied in all.
pub proof fn law_progress_increases(start: int, chunks: Seq<nat>)
    requires
        forall|i: int| 0 <= i < chunks.len() ==> #[trigger] chunks[i] > 0,
    ensures
        progress_reports(start, chunks).len() == chunks.len(),
        forall|i: int| 0 <= i < chunks.len() ==> #[trigger] progress_reports(start, chunks)[i] > start,
        forall|i: int, j: int|
            0 <= i < j < chunks.len() ==> #[trigger] progress_reports(start, chunks)[i] < #[trigger] progress_reports(
                start,
                chunks,
            )[j],
        chunks.len() > 0 ==> progress_reports(start, chunks).last() == start + chunks_sum(chunks),
    decreases chunks.len(),
{
    if chunks.len() > 0 {
        let rest = chunks.drop_first();
        let t = start + chunks[0];
        assert forall|i: int| 0 <= i < rest.len() implies #[trigger] rest[i] > 0 by {
            assert(rest[i] == chunks[i + 1]);
        }
        law_progress_increases(t, rest);
        let r = progress_reports(start, chunks);
        let rr = progress_reports(t, rest);
        assert(r == seq![t] + rr);
        assert forall|i: int| 0 <= i < chunks.len() implies #[trigger] r[i] > start by {
            if i > 0 {
                assert(r[i] == rr[i - 1]);
            }
        }
        assert forall|i: int, j: int| 0 <= i < j < chunks.len() implies #[trigger] r[i] < #[trigger] r[j] by {
            assert(r[j] == rr[j - 1]);
            if i > 0 {
                assert(r[i] == rr[i - 1]);
            }
        }
        if rest.len() == 0 {
            assert(chunks_sum(rest) == 0);
        } else {
            assert(r.last() == rr.last());
        }
    }
}

/// A job copies bytes only when the destination was free and its row was
/// registered; it then copies under the id of that row and writes its final
/// status to that same row.
pub proof fn law_run_targets_registered_row(
    f: FileView,
    dest_exists: bool,
    registered: Result<i64, Seq<char>>,
    copied: Result<(), Seq<char>>,
)
    ensures
        ({
            let run = run_spec(f, dest_exists, registered, copied);
            &&& (exists|i: int| 0 <= i < run.len() && #[trigger] run[i] is Copy) <==> (!dest_exists && registered is Ok)
            &&& (!dest_exists && registered is Ok) ==> {
                &&& run[3] == ActionView::Copy { id: registered->Ok_0 }
                &&& run[4] matches ActionView::Db(DbCommandView::UpdateStatus { id, .. }) && id == registered->Ok_0
            }
        }),
{
    let run = run_spec(f, dest_exists, registered, copied);
    if !dest_exists && registered is Ok {
        assert(run[3] is Copy);
    } else {
        assert forall|i: int| 0 <= i < run.len() implies !(#[trigger] run[i] is Copy) by {}
    }
}

/// The `file_size` column keeps the whole 64-bit size: a size below 2^63 is
/// stored as itself, a larger one as its 64-bit two's complement.
pub proof fn law_size_column_exact(size: u64)
    ensures
        size < 0x8000_0000_0000_0000 ==> size_column(size) as int == size as int,
        size >= 0x8000_0000_0000_0000 ==> size_column(size) as int == size as int - 0x1_0000_0000_0000_0000,
{
    if size < 0x8000_0000_0000_0000 {
        assert(size < 0x8000_0000_0000_0000 ==> (size as i64) as int == size as int) by (bit_vector);
    } else {
        assert(size >= 0x8000_0000_0000_0000 ==> (size as i64) as int == size as int - 0x1_0000_0000_0000_0000)
            by (bit_vector);
    }
}

/// Checking a file against the destination records the file's own source,
/// destination and size: registered as `Processing` when the destination is
/// free, recorded as `Skipped` when it exists. A size below 2^63 reaches the
/// table unchanged.
pub proof fn law_first_row_keeps_file(f: FileView, dest_exists: bool)
    ensures
        ({
            let first = step_spec(f, JobPhase::Discovered, JobEventView::Checked { dest_exists }).1[0];
            &&& dest_exists ==> (first matches ActionView::Db(
                DbCommandView::RecordFileStatus { source, dest, size, status, error },
            ) && source == f.source && dest == f.dest && status == JobStatus::Skipped && error is None && (f.size
                < 0x8000_0000_0000_0000 ==> size as int == f.size as int))
            &&& !dest_exists ==> (first matches ActionView::Db(
                DbCommandView::UpsertFile { source, dest, size, status, error },
            ) && source == f.source && dest == f.dest && status == JobStatus::Processing && error is None && (f.size
                < 0x8000_0000_0000_0000 ==> size as int == f.size as int))
        }),
{
    law_size_column_exact(f.size);
}

/// A log message that carries neither the copying marker nor the all-done
/// marker changes only the log: status, current file and counters stay.
/// With the copying marker the status becomes `Transferring` and the current
/// file stays; with only the all-done marker the status becomes `Finished` and
/// no file is current.
pub proof fn law_log_status_markers(d: DashboardView, msg: Seq<char>)
    ensures
        ({
            let n = next_view(d, AppEventView::Log(msg));
            &&& n.completed == d.completed && n.skipped == d.skipped && n.failed == d.failed
            &&& (!contains_spec(msg, copying_marker()) && !contains_spec(msg, all_done_marker())) ==> (
            n.status == d.status && n.current_file == d.current_file)
            &&& contains_spec(msg, copying_marker()) ==> (n.status == Status::Transferring && n.current_file
                == d.current_file)
            &&& (!contains_spec(msg, copying_marker()) && contains_spec(msg, all_done_marker())) ==> (n.status
                == Status::Finished && n.current_file is None)
        }),
{
}

/// A file announcement sets the current file to exactly the announced one and
/// touches neither logs nor counters; the status changes only when a file in
/// transfer is cleared, and then to `AwaitingNext`.
pub proof fn law_current_file_event(d: DashboardView, f: Option<Seq<char>>)
    ensures
        ({
            let n = next_view(d, AppEventView::CurrentFile(f));
            &&& n.current_file == f
            &&& n.logs == d.logs
            &&& n.completed == d.completed && n.skipped == d.skipped && n.failed == d.failed
            &&& (f is None && d.status == Status::Transferring) ==> n.status == Status::AwaitingNext
            &&& !(f is None && d.status == Status::Transferring) ==> n.status == d.status
        }),
{
}

/// An outcome report bumps exactly its own counter by one and leaves the log,
/// status and current file as they were.
pub proof fn law_stat_event(d: DashboardView, s: TransferStat)
    ensures
        ({
            let n = next_view(d, AppEventView::StatsUpdate(s));
            &&& n.logs == d.logs && n.status == d.status && n.current_file == d.current_file
            &&& n.completed == d.completed + (if s == TransferStat::Completed { 1int } else { 0int })
            &&& n.skipped == d.skipped + (if s == TransferStat::Skipped { 1int } else { 0int })
            &&& n.failed == d.failed + (if s == TransferStat::Failed { 1int } else { 0int })
        }),
{
}

/// A quit request adds exactly one line, the quit notice, keeps every earlier
/// line and the counters, and stops the loop.
pub proof fn law_quit_event(d: DashboardView)
    ensures
        ({
            let n = next_view(d, AppEventView::Quit);
            &&& n.logs.len() == d.logs.len() + 1
            &&& n.logs.drop_last() =~= d.logs
            &&& n.logs.last() == quit_log()
            &&& n.status == Status::StopRequested
            &&& n.current_file == d.current_file
            &&& n.completed == d.completed && n.skipped == d.skipped && n.failed == d.failed
            &&& flow_of(AppEventView::Quit) is Shutdown
        }),
{
}

/// Whether a walked entry is queued does not depend on its size: an entry
/// under the scan root is queued whatever its size (an empty file too), with
/// its own path as source, the relative part joined to the destination root as
/// destination, and the size unchanged; an entry outside it never is.
pub proof fn law_discover_any_size(scan_root: Seq<char>, dest_root: Seq<char>, entry: Seq<char>, s1: u64, s2: u64)
    ensures
        (discover_spec(scan_root, dest_root, entry, s1) is None) == (discover_spec(scan_root, dest_root, entry, s2) is None),
        (discover_spec(scan_root, dest_root, entry, s1) is None) == (path_strip_prefix_of(entry, scan_root) is None),
        path_strip_prefix_of(entry, scan_root) matches Some(rel) ==> discover_spec(scan_root, dest_root, entry, s1)
            == Some(FileView { source: entry, dest: path_joined(dest_root, rel), size: s1 }),
{
}

/// The number a run of decimal digits denotes.
pub open spec fn digits_value(s: Seq<char>) -> int
    decreases s.len(),
{
    if s.len() == 0 {
        0
    } else {
        digits_value(s.drop_last()) * 10 + (s.last() as int - 48)
    }
}

/// The decimal notation of `n` is a non-empty run of the digits `0`..`9`
/// that denotes `n`, with no leading zero unless `n` is zero.
pub proof fn law_decimal_denotes(n: nat)
    ensures
        decimal_spec(n).len() > 0,
        forall|i: int| 0 <= i < decimal_spec(n).len() ==> '0' <= #[trigger] decimal_spec(n)[i] <= '9',
        digits_value(decimal_spec(n)) == n,
        n > 0 ==> decimal_spec(n)[0] != '0',
    decreases n,
{
    let d = digit_char(n % 10);
    assert(d as int == 48 + n % 10);
    if n < 10 {
        let s = decimal_spec(n);
        assert(s =~= seq![d]);
        assert(s.drop_last() =~= Seq::<char>::empty());
        assert(digits_value(s) == digits_value(s.drop_last()) * 10 + (s.last() as int - 48));
        assert(digits_value(Seq::<char>::empty()) == 0);
    } else {
        law_decimal_denotes(n / 10);
        let head = decimal_spec(n / 10);
        let s = decimal_spec(n);
        assert(s == head.push(d));
        assert(s.drop_last() =~= head);
        assert(s.last() == d);
        assert(digits_value(s) == digits_value(head) * 10 + (d as int - 48));
        assert((n / 10) * 10 + n % 10 == n);
        assert forall|i: int| 0 <= i < s.len() implies '0' <= #[trigger] s[i] <= '9' by {
            if i < head.len() {
                assert(s[i] == head[i]);
            }
        }
        assert(s[0] == head[0]);
    }
}

/// A needle occurs in any text built around it, and never in a shorter text.
pub proof fn law_contains_placed(before: Seq<char>, needle: Seq<char>, after: Seq<char>, short: Seq<char>)
    ensures
        contains_spec(before + needle + after, needle),
        short.len() < needle.len() ==> !contains_spec(short, needle),
{
    let hay = before + needle + after;
    assert(hay.subrange(before.len() as int, (before.len() + needle.len()) as int) =~= needle);
    lemma_contains_at(hay, needle, before.len() as int);
}

/// Every log line a job step sends names the file's source path, and a line
/// that reports an error carries the error text too.
pub proof fn law_job_logs_name_source(f: FileView, p: JobPhase, e: JobEventView)
    requires
        awaits(p, e),
    ensures
        forall|i: int|
            0 <= i < step_spec(f, p, e).1.len() ==> (#[trigger] step_spec(f, p, e).1[i] matches ActionView::Notify(
                AppEventView::Log(line),
            ) ==> contains_spec(line, f.source)),
        e matches JobEventView::Registered(Err(err)) ==> (step_spec(f, p, e).1[0] matches ActionView::Notify(
            AppEventView::Log(line),
        ) && contains_spec(line, err)),
        e matches JobEventView::Copied(Err(err)) ==> (step_spec(f, p, e).1[1] matches ActionView::Notify(
            AppEventView::Log(line),
        ) && contains_spec(line, err)),
{
    reveal_strlit("Ja existe no destino: ");
    reveal_strlit("Erro ao registrar ");
    reveal_strlit(" no banco: ");
    reveal_strlit("Copiando: ");
    reveal_strlit("Sucesso: ");
    reveal_strlit("Erro em ");
    reveal_strlit(": ");
    let acts = step_spec(f, p, e).1;
    match e {
        JobEventView::Checked { dest_exists } => {
            law_contains_placed("Ja existe no destino: "@, f.source, Seq::empty(), Seq::empty());
            assert("Ja existe no destino: "@ + f.source + Seq::<char>::empty() =~= "Ja existe no destino: "@ + f.source);
        },
        JobEventView::Registered(r) => match r {
            Err(err) => {
                law_contains_placed("Erro ao registrar "@, f.source, " no banco: "@ + err, Seq::empty());
                assert("Erro ao registrar "@ + f.source + (" no banco: "@ + err) =~= "Erro ao registrar "@ + f.source
                    + " no banco: "@ + err);
                law_contains_placed("Erro ao registrar "@ + f.source + " no banco: "@, err, Seq::empty(), Seq::empty());
                assert("Erro ao registrar "@ + f.source + " no banco: "@ + err + Seq::<char>::empty()
                    =~= "Erro ao registrar "@ + f.source + " no banco: "@ + err);
            },
            Ok(id) => {
                law_contains_placed("Copiando: "@, f.source, Seq::empty(), Seq::empty());
                assert("Copiando: "@ + f.source + Seq::<char>::empty() =~= "Copiando: "@ + f.source);
            },
        },
        JobEventView::Copied(r) => match r {
            Ok(_) => {
                law_contains_placed("Sucesso: "@, f.source, Seq::empty(), Seq::empty());
                assert("Sucesso: "@ + f.source + Seq::<char>::empty() =~= "Sucesso: "@ + f.source);
            },
            Err(err) => {
                law_contains_placed("Erro em "@, f.source, ": "@ + err, Seq::empty());
                assert("Erro em "@ + f.source + (": "@ + err) =~= "Erro em "@ + f.source + ": "@ + err);
                law_contains_placed("Erro em "@ + f.source + ": "@, err, Seq::empty(), Seq::empty());
                assert("Erro em "@ + f.source + ": "@ + err + Seq::<char>::empty() =~= "Erro em "@ + f.source
                    + ": "@ + err);
            },
        },
    }
}

/// Finishing a copy writes to the row being copied: `Completed` without an
/// error when the copy succeeded, `Failed` with the copy's own error text when
/// it did not, and reports the matching outcome.
pub proof fn law_copy_outcome_recorded(f: FileView, id: i64, r: Result<(), Seq<char>>)
    ensures
        ({
            let acts = step_spec(f, JobPhase::Copying(id), JobEventView::Copied(r)).1;
            &&& acts[0] matches ActionView::Db(DbCommandView::UpdateStatus { id: row, status, error })
            &&& acts[0]->Db_0->UpdateStatus_id == id
            &&& r is Ok ==> acts[0]->Db_0->UpdateStatus_status == JobStatus::Completed
                && acts[0]->Db_0->UpdateStatus_error is None
                && acts[2] == ActionView::Notify(AppEventView::StatsUpdate(TransferStat::Completed))
            &&& r matches Err(err) ==> acts[0]->Db_0->UpdateStatus_status == JobStatus::Failed
                && acts[0]->Db_0->UpdateStatus_error == Some(err)
                && acts[2] == ActionView::Notify(AppEventView::StatsUpdate(TransferStat::Failed))
        }),
{
}

/// A database directory is only ever taken from a `sqlite://` url, is never
/// empty, and is the non-empty parent of the file path after the scheme.
pub proof fn law_db_dir_from_sqlite_url(url: Seq<char>, file: Seq<char>)
    ensures
        db_dir_spec(url) matches Some(dir) ==> dir.len() > 0 && url.len() >= sqlite_scheme().len() && url.subrange(
            0,
            sqlite_scheme().len() as int,
        ) == sqlite_scheme(),
        (url.len() < sqlite_scheme().len() || url.subrange(0, sqlite_scheme().len() as int) != sqlite_scheme())
            ==> db_dir_spec(url) is None,
        path_parent_of(file) matches Some(p) ==> (p.len() > 0 ==> db_dir_spec(sqlite_scheme() + file) == Some(p)),
        path_parent_of(file) is None ==> db_dir_spec(sqlite_scheme() + file) is None,
{
    law_strip_prefix_restores(file, sqlite_scheme());
}

} // verus!
