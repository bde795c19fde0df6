//! General laws of the engine, proved over the contracts of its functions.

use vstd::prelude::*;
use crate::control::{automation_step, capture_step, completes, step_ok, AutomationError, EngineEvent, LoopDecision, StepOutcome};
use crate::export::{entry_of, pages_increase, shot_of, ExportEntry};
use crate::model::{Screenshot, SessionStatus};
use crate::session::{edge, ended, follows, moved, pages_of, summary_of, BookSession};

verus! {

/// A terminal status is final: the only status that follows it is itself.
pub proof fn terminal_status_is_final(a: SessionStatus, b: SessionStatus)
    requires
        a.spec_is_terminal(),
        follows(a, b),
    ensures
        b == a,
{
}

/// No edge of the state machine leaves a terminal status.
pub proof fn no_edge_leaves_terminal(a: SessionStatus, b: SessionStatus)
    requires
        edge(a, b),
    ensures
        !a.spec_is_terminal(),
{
}

/// Over any history of a session in which each change is one that the
/// engine's functions make (each ensures `step_ok`): every change follows the
/// edges of the state machine, at most one terminal status is ever reached,
/// and the last captured page never decreases nor exceeds the count of
/// captured pages.
pub proof fn history_laws(h: Seq<BookSession>)
    requires
        h.len() > 0,
        h[0].wf(),
        forall|i: int| 0 <= i < h.len() - 1 ==> step_ok(#[trigger] h[i], h[i + 1]),
    ensures
        forall|i: int| 0 <= i < h.len() ==> (#[trigger] h[i]).wf() && h[i].last_page_captured <= h[i].total_pages_captured,
        forall|i: int| 0 <= i < h.len() - 1 ==> #[trigger] follows(h[i].status, h[i + 1].status),
        forall|i: int, j: int|
            0 <= i <= j < h.len() ==> #[trigger] h[i].last_page_captured <= #[trigger] h[j].last_page_captured,
        forall|i: int, j: int|
            0 <= i <= j < h.len() && (#[trigger] h[i]).status.spec_is_terminal() ==> #[trigger] h[j].status == h[i].status,
        forall|i: int, j: int|
            0 <= i < h.len() && 0 <= j < h.len() && (#[trigger] h[i]).status.spec_is_terminal()
                && (#[trigger] h[j]).status.spec_is_terminal() ==> h[i].status == h[j].status,
{
    assert forall|i: int| 0 <= i < h.len() implies (#[trigger] h[i]).wf() by {
        if i > 0 {
            assert(step_ok(h[i - 1], h[i]));
        }
    }
    assert forall|i: int, j: int| 0 <= i <= j < h.len() implies #[trigger] h[i].last_page_captured
        <= #[trigger] h[j].last_page_captured && (h[i].status.spec_is_terminal() ==> h[j].status == h[i].status) by {
        history_from(h, i, j);
    }
}

proof fn history_from(h: Seq<BookSession>, i: int, j: int)
    requires
        0 <= i <= j < h.len(),
        forall|k: int| 0 <= k < h.len() - 1 ==> step_ok(#[trigger] h[k], h[k + 1]),
    ensures
        h[i].last_page_captured <= h[j].last_page_captured,
        h[i].status.spec_is_terminal() ==> h[j].status == h[i].status,
    decreases j - i,
{
    if i < j {
        history_from(h, i, j - 1);
        assert(step_ok(h[j - 1], h[j]));
    }
}

/// Pausing a capturing session and resuming it keeps its screenshots and
/// counters, and the next capture is numbered `last_page_captured + 1`.
pub proof fn pause_resume_keeps_pages(s: BookSession)
    requires
        s.wf(),
        s.status is Capturing,
    ensures
        ({
            let p = moved(s, SessionStatus::Paused);
            let q = moved(p, SessionStatus::Capturing);
            &&& p.wf() && q.wf()
            &&& q.status is Capturing
            &&& q.screenshots == s.screenshots
            &&& q.last_page_captured == s.last_page_captured
            &&& q.total_pages_captured == s.total_pages_captured
            &&& q.next_page() == s.last_page_captured + 1
        }),
{
}

/// A capture that finishes while the session is paused is kept exactly once:
/// the pages become those before with the next page appended, the session
/// stays paused, the loop halts, and resuming continues after that page.
pub proof fn capture_during_pause_is_kept(
    s: BookSession,
    shot: Screenshot,
    now: i64,
    r: StepOutcome,
    t: BookSession,
)
    requires
        s.wf(),
        s.status is Paused,
        s.last_page_captured < u32::MAX,
        capture_step(s, Ok(shot), now, r, t),
    ensures
        t.status is Paused,
        r.decision == LoopDecision::Halt,
        t.screenshots@.drop_last() == s.screenshots@,
        pages_of(t.screenshots@) == pages_of(s.screenshots@).push((s.last_page_captured + 1) as u32),
        moved(t, SessionStatus::Capturing).next_page() == s.last_page_captured + 2,
{
    assert(t.screenshots@.drop_last() =~= s.screenshots@);
    assert(pages_of(t.screenshots@) =~= pages_of(s.screenshots@).push((s.last_page_captured + 1) as u32));
}

/// Stopping a capturing or paused session ends it as `Cancelled` with its
/// summary; the session is then terminal, so a second stop changes nothing
/// and returns that same summary.
pub proof fn stop_twice_returns_first_summary(s: BookSession, now: i64)
    requires
        s.wf(),
        s.status is Capturing || s.status is Paused,
    ensures
        ({
            let t = ended(s, SessionStatus::Cancelled, now);
            &&& t.wf()
            &&& t.status.spec_is_terminal()
            &&& t.session_summary == Some(summary_of(s, now))
        }),
{
}

/// Exporting a session's screenshots and importing the entries back into
/// the session gives the same screenshots: page order and checksums are
/// kept.
pub proof fn export_import_round_trip(s: BookSession)
    requires
        s.wf(),
    ensures
        ({
            let es = s.screenshots@.map_values(|x: Screenshot| entry_of(x));
            &&& pages_increase(es)
            &&& es.map_values(|e: ExportEntry| shot_of(e, s.id)) == s.screenshots@
        }),
{
    let es = s.screenshots@.map_values(|x: Screenshot| entry_of(x));
    assert forall|i: int| 0 < i < es.len() implies es[i - 1].page_number < (#[trigger] es[i]).page_number by {
        assert(s.screenshots@[i - 1].page_number == i);
        assert(s.screenshots@[i].page_number == i + 1);
    }
    let back = es.map_values(|e: ExportEntry| shot_of(e, s.id));
    assert forall|i: int| 0 <= i < back.len() implies back[i] == s.screenshots@[i] by {
        assert(s.screenshots@[i].book_session_id == s.id);
    }
    assert(back =~= s.screenshots@);
}

/// After a pause and a resume, the next capture appends exactly one
/// screenshot, numbered `last_page_captured + 1`, after the pages kept.
pub proof fn resume_continues_after_last_page(
    s: BookSession,
    shot: Screenshot,
    now: i64,
    r: StepOutcome,
    t: BookSession,
)
    requires
        s.wf(),
        s.status is Capturing,
        s.last_page_captured < u32::MAX,
        capture_step(moved(moved(s, SessionStatus::Paused), SessionStatus::Capturing), Ok(shot), now, r, t),
    ensures
        t.screenshots@.drop_last() == s.screenshots@,
        t.screenshots@.last().page_number == s.last_page_captured + 1,
        t.last_page_captured == s.last_page_captured + 1,
{
    assert(moved(moved(s, SessionStatus::Paused), SessionStatus::Capturing) == s);
    assert(t.screenshots@.drop_last() =~= s.screenshots@);
}

/// A page whose turn fails twice and then succeeds, with attempts to spare,
/// is captured as the next page: two error events for that page with
/// attempts 1 and 2, no error counted, and the session keeps capturing.
pub proof fn retries_then_success(
    s0: BookSession,
    e1: AutomationError,
    e2: AutomationError,
    latency: u32,
    shot: Screenshot,
    now: i64,
    r1: StepOutcome,
    s1: BookSession,
    r2: StepOutcome,
    s2: BookSession,
    r3: StepOutcome,
    s3: BookSession,
    r4: StepOutcome,
    s4: BookSession,
)
    requires
        s0.wf(),
        s0.status is Capturing,
        s0.page_attempts == 0,
        s0.settings.max_capture_attempts >= 3,
        s0.last_page_captured < u32::MAX,
        !completes(s0, shot),
        automation_step(s0, Err(e1), now, r1, s1),
        automation_step(s1, Err(e2), now, r2, s2),
        automation_step(s2, Ok(latency), now, r3, s3),
        capture_step(s3, Ok(shot), now, r4, s4),
    ensures
        r1.decision == LoopDecision::RetryPage,
        r2.decision == LoopDecision::RetryPage,
        r3.decision == LoopDecision::Proceed,
        r4.decision == LoopDecision::NextPage,
        r1.events@.len() == 1 && r2.events@.len() == 1 && r3.events@.len() == 0,
        r1.events@[0] matches EngineEvent::Error(e) && e.retry_attempt == 1 && e.page_number
            == s0.last_page_captured + 1,
        r2.events@[0] matches EngineEvent::Error(e) && e.retry_attempt == 2 && e.page_number
            == s0.last_page_captured + 1,
        r4.events@[0] is Progress,
        s4.status is Capturing,
        s4.last_page_captured == s0.last_page_captured + 1,
        s4.total_pages_captured == s0.total_pages_captured + 1,
        s4.error_count == s0.error_count,
{
    assert(s1 == BookSession { page_attempts: 1, ..s0 });
    assert(s2 == BookSession { page_attempts: 2, ..s0 });
    assert(s3 == s2);
    assert(completes(s3, shot) == completes(s0, shot));
}

/// With completion detection on, a capture whose checksum equals that of the
/// capture just before it completes the session: the loop halts, and the
/// end time and summary are set.
pub proof fn repeated_checksum_completes(
    s0: BookSession,
    a: Screenshot,
    b: Screenshot,
    now1: i64,
    now2: i64,
    r1: StepOutcome,
    s1: BookSession,
    r2: StepOutcome,
    s2: BookSession,
)
    requires
        s0.wf(),
        s0.status is Capturing,
        s0.settings.auto_detect_completion,
        s0.last_page_captured < u32::MAX - 1,
        a.metadata.checksum@ == b.metadata.checksum@,
        capture_step(s0, Ok(a), now1, r1, s1),
        s1.status is Capturing,
        capture_step(s1, Ok(b), now2, r2, s2),
    ensures
        s2.status is Completed,
        r2.decision == LoopDecision::Halt,
        s2.end_time is Some,
        s2.session_summary is Some,
{
    assert(s1.screenshots@.last() == crate::control::stored_shot(s0, a));
    assert(completes(s1, b));
}

} // verus!
