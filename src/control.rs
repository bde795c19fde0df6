//! The decisions of a session's capture loop.
//!
//! The loop itself (waiting, driving the target, writing files) runs outside
//! the library. After each step it hands the outcome to one of the methods
//! below, which updates the session and says what to do next, together with
//! the events to deliver in order.

use vstd::prelude::*;
use crate::model::{CaptureAnomalyEvent, CaptureErrorEvent, CaptureProgressEvent, PermissionStatus, Screenshot, SessionStatus, SessionStatusEvent};
use crate::session::{ended, elapsed_ms, follows, status_event, BookSession};

verus! {

/// Pages skipped in a row after which a session fails, unless the session
/// is given another threshold.
pub const DEFAULT_FAILURE_THRESHOLD: u32 = 3;

/// Why a page-turn command failed.
#[derive(Debug, Clone)]
pub enum AutomationError {
    /// The command did not return within the shared timeout.
    Timeout,
    /// The target window lost focus or the key event was rejected.
    FocusLost,
    /// The accessibility action is unavailable or the tree is stale.
    ActionUnavailable(String),
    /// The automation script failed.
    ScriptFailed(String),
}

/// Why a capture failed.
#[derive(Debug, Clone)]
pub enum CaptureError {
    WindowUnavailable,
    EncodeFailure(String),
    /// Writing the image failed; a full quota is told apart from other failures.
    DiskWrite { quota_exceeded: bool },
}

pub open spec fn automation_error_text(e: AutomationError) -> Seq<char> {
    match e {
        AutomationError::Timeout => "automation timed out"@,
        AutomationError::FocusLost => "target window lost focus"@,
        AutomationError::ActionUnavailable(d) => d@,
        AutomationError::ScriptFailed(d) => d@,
    }
}

pub open spec fn capture_error_text(e: CaptureError) -> Seq<char> {
    match e {
        CaptureError::WindowUnavailable => "target window unavailable"@,
        CaptureError::EncodeFailure(d) => d@,
        CaptureError::DiskWrite { quota_exceeded } => if quota_exceeded {
            "disk quota exceeded"@
        } else {
            "disk write failed"@
        },
    }
}

impl AutomationError {
    pub fn describe(&self) -> (r: String)
        ensures
            r@ == automation_error_text(*self),
    {
        match self {
            AutomationError::Timeout => {
                proof { reveal_strlit("automation timed out"); }
                "automation timed out".to_string()
            },
            AutomationError::FocusLost => {
                proof { reveal_strlit("target window lost focus"); }
                "target window lost focus".to_string()
            },
            AutomationError::ActionUnavailable(d) => d.clone(),
            AutomationError::ScriptFailed(d) => d.clone(),
        }
    }
}

impl CaptureError {
    pub fn describe(&self) -> (r: String)
        ensures
            r@ == capture_error_text(*self),
    {
        match self {
            CaptureError::WindowUnavailable => {
                proof { reveal_strlit("target window unavailable"); }
                "target window unavailable".to_string()
            },
            CaptureError::EncodeFailure(d) => d.clone(),
            CaptureError::DiskWrite { quota_exceeded } => {
                if *quota_exceeded {
                    proof { reveal_strlit("disk quota exceeded"); }
                    "disk quota exceeded".to_string()
                } else {
                    proof { reveal_strlit("disk write failed"); }
                    "disk write failed".to_string()
                }
            },
        }
    }
}

/// What the loop does next.
#[derive(Debug, Clone, Copy, PartialEq, Eq, Structural)]
pub enum LoopDecision {
    /// Go on with the next step of the current cycle.
    Proceed,
    /// Turn and capture the same page again.
    RetryPage,
    /// Start the cycle of the next page.
    NextPage,
    /// Leave the loop: the session is no longer capturing.
    Halt,
}

/// An event for the listeners.
#[derive(Debug, Clone)]
pub enum EngineEvent {
    Progress(CaptureProgressEvent),
    Error(CaptureErrorEvent),
    Status(SessionStatusEvent),
    Anomaly(CaptureAnomalyEvent),
}

/// The decision of one loop step and the events it produced, in order.
#[derive(Debug, Clone)]
pub struct StepOutcome {
    pub decision: LoopDecision,
    pub events: Vec<EngineEvent>,
}

pub open spec fn sat_inc(a: u32) -> u32 {
    if a < u32::MAX { (a + 1) as u32 } else { u32::MAX }
}

pub open spec fn sat_add64(a: u64, b: u64) -> u64 {
    if a as int + b as int > u64::MAX as int { u64::MAX } else { (a + b) as u64 }
}

/// The page the loop is working on, as reported in events.
pub open spec fn current_page(s: BookSession) -> u32 {
    sat_inc(s.last_page_captured)
}

/// The event of one failed attempt at the current page.
pub open spec fn attempt_event(s: BookSession, text: Seq<char>, e: CaptureErrorEvent) -> bool {
    &&& e.session_id == s.id
    &&& e.page_number == current_page(s)
    &&& e.error@ == text
    &&& e.retry_attempt == s.page_attempts + 1
    &&& e.max_retries == s.settings.max_capture_attempts
}

/// The session after a page's attempts ran out: the page is skipped and
/// counted as an error.
pub open spec fn skipped(s: BookSession) -> BookSession {
    BookSession {
        page_attempts: 0,
        error_count: sat_inc(s.error_count),
        consecutive_failures: sat_inc(s.consecutive_failures),
        ..s
    }
}

/// What a failed attempt does to a capturing session, in words: the attempt
/// is counted; while attempts remain the page is retried; otherwise the page
/// is skipped, and the session fails once its `failure_threshold` of pages
/// in a row were skipped.
pub open spec fn failed_attempt(s: BookSession, text: Seq<char>, now: i64, r: StepOutcome, t: BookSession) -> bool {
    let a = s.page_attempts + 1;
    &&& r.events@.len() >= 1
    &&& r.events@[0] matches EngineEvent::Error(e) && attempt_event(s, text, e)
    &&& if a < s.settings.max_capture_attempts {
        &&& t == BookSession { page_attempts: a as u32, ..s }
        &&& r.decision == LoopDecision::RetryPage
        &&& r.events@.len() == 1
    } else if skipped(s).consecutive_failures >= s.failure_threshold {
        &&& t == ended(skipped(s), SessionStatus::Failed, now)
        &&& r.decision == LoopDecision::Halt
        &&& r.events@ == seq![r.events@[0], EngineEvent::Status(status_event(s, SessionStatus::Failed, now))]
    } else {
        &&& t == skipped(s)
        &&& r.decision == LoopDecision::NextPage
        &&& r.events@.len() == 1
    }
}

/// A step that leaves the session as it is.
pub open spec fn unchanged(s: BookSession, r: StepOutcome, t: BookSession, d: LoopDecision) -> bool {
    t == s && r.decision == d && r.events@.len() == 0
}

/// A step that fails the session with one status event.
pub open spec fn failed_now(s: BookSession, now: i64, r: StepOutcome, t: BookSession) -> bool {
    &&& t == ended(s, SessionStatus::Failed, now)
    &&& r.decision == LoopDecision::Halt
    &&& r.events@ == seq![EngineEvent::Status(status_event(s, SessionStatus::Failed, now))]
}

/// The permission checkpoint: a missing permission fails a capturing
/// session; anything but `Capturing` leaves the loop.
pub open spec fn permission_step(s: BookSession, p: PermissionStatus, now: i64, r: StepOutcome, t: BookSession) -> bool {
    &&& !(s.status is Capturing) ==> unchanged(s, r, t, LoopDecision::Halt)
    &&& s.status is Capturing && !p.spec_allows_capture() ==> failed_now(s, now, r, t)
    &&& s.status is Capturing && p.spec_allows_capture() ==> unchanged(s, r, t, LoopDecision::Proceed)
}

/// The target checkpoint: a target that no longer resolves fails a
/// capturing session.
pub open spec fn target_step(s: BookSession, resolves: bool, now: i64, r: StepOutcome, t: BookSession) -> bool {
    &&& !(s.status is Capturing) ==> unchanged(s, r, t, LoopDecision::Halt)
    &&& s.status is Capturing && !resolves ==> failed_now(s, now, r, t)
    &&& s.status is Capturing && resolves ==> unchanged(s, r, t, LoopDecision::Proceed)
}

/// The outcome of a page-turn command.
pub open spec fn automation_step(s: BookSession, result: Result<u32, AutomationError>, now: i64, r: StepOutcome, t: BookSession) -> bool {
    &&& !(s.status is Capturing) ==> unchanged(s, r, t, LoopDecision::Halt)
    &&& s.status is Capturing && result is Ok ==> unchanged(s, r, t, LoopDecision::Proceed)
    &&& s.status is Capturing ==> (result matches Err(e) ==> failed_attempt(s, automation_error_text(e), now, r, t))
}

/// The outcome of a capture.
pub open spec fn capture_step(s: BookSession, result: Result<Screenshot, CaptureError>, now: i64, r: StepOutcome, t: BookSession) -> bool {
    &&& !(s.status is Capturing || s.status is Paused) ==> unchanged(s, r, t, LoopDecision::Halt)
    &&& (s.status is Capturing || s.status is Paused) ==> match result {
        Ok(shot) => if s.last_page_captured == u32::MAX {
            failed_now(s, now, r, t)
        } else if completes(s, shot) {
            &&& records(s, shot, t)
            &&& t.status == SessionStatus::Completed
            &&& t.end_time == Some(now)
            &&& t.session_summary == Some(crate::session::summary_of(t, now))
            &&& r.decision == LoopDecision::Halt
            &&& r.events@ == capture_events(s, shot, t, now).push(
                EngineEvent::Status(status_event(s, SessionStatus::Completed, now)),
            )
        } else {
            &&& records(s, shot, t)
            &&& t.status == s.status
            &&& t.end_time == s.end_time
            &&& t.session_summary == s.session_summary
            &&& r.decision == (if s.status is Capturing {
                LoopDecision::NextPage
            } else {
                LoopDecision::Halt
            })
            &&& r.events@ == capture_events(s, shot, t, now)
        },
        Err(e) => if e matches CaptureError::DiskWrite { quota_exceeded: true } {
            failed_now(s, now, r, t)
        } else if s.status is Capturing {
            failed_attempt(s, capture_error_text(e), now, r, t)
        } else {
            unchanged(s, r, t, LoopDecision::Halt)
        },
    }
}

fn single(e: EngineEvent) -> (r: Vec<EngineEvent>)
    ensures
        r@ == seq![e],
{
    let mut v: Vec<EngineEvent> = Vec::new();
    v.push(e);
    v
}

impl BookSession {
    /// The checkpoint before each cycle: a missing permission fails the
    /// session; anything but `Capturing` leaves the loop.
    pub fn check_permissions(&mut self, p: PermissionStatus, now: i64) -> (r: StepOutcome)
        requires
            old(self).wf(),
        ensures
            final(self).wf(),
            follows(old(self).status, final(self).status),
            permission_step(*old(self), p, now, r, *final(self)),
    {
        if !matches!(self.status, SessionStatus::Capturing) {
            return StepOutcome { decision: LoopDecision::Halt, events: Vec::new() };
        }
        if !p.allows_capture() {
            return self.fail_step(now);
        }
        StepOutcome { decision: LoopDecision::Proceed, events: Vec::new() }
    }

    /// The check that the target window still resolves: a stale target fails
    /// the session.
    pub fn check_target(&mut self, resolves: bool, now: i64) -> (r: StepOutcome)
        requires
            old(self).wf(),
        ensures
            final(self).wf(),
            follows(old(self).status, final(self).status),
            target_step(*old(self), resolves, now, r, *final(self)),
    {
        if !matches!(self.status, SessionStatus::Capturing) {
            return StepOutcome { decision: LoopDecision::Halt, events: Vec::new() };
        }
        if !resolves {
            return self.fail_step(now);
        }
        StepOutcome { decision: LoopDecision::Proceed, events: Vec::new() }
    }

    fn fail_step(&mut self, now: i64) -> (r: StepOutcome)
        requires
            old(self).wf(),
            !old(self).status.spec_is_terminal(),
        ensures
            final(self).wf(),
            failed_now(*old(self), now, r, *final(self)),
    {
        let ev = self.fail(now);
        match ev {
            Some(e) => StepOutcome { decision: LoopDecision::Halt, events: single(EngineEvent::Status(e)) },
            None => StepOutcome { decision: LoopDecision::Halt, events: Vec::new() },
        }
    }

    /// Counts a failed attempt at the current page.
    fn attempt_failed(&mut self, text: String, now: i64) -> (r: StepOutcome)
        requires
            old(self).wf(),
            old(self).status is Capturing,
        ensures
            final(self).wf(),
            failed_attempt(*old(self), text@, now, r, *final(self)),
    {
        let ghost s = *self;
        let attempt: u32 = self.page_attempts + 1;
        let page: u32 = if self.last_page_captured < u32::MAX { self.last_page_captured + 1 } else { u32::MAX };
        let err = CaptureErrorEvent {
            session_id: self.id,
            page_number: page,
            error: text,
            retry_attempt: attempt,
            max_retries: self.settings.max_capture_attempts,
        };
        let mut events = single(EngineEvent::Error(err));
        if attempt < self.settings.max_capture_attempts {
            self.page_attempts = attempt;
            return StepOutcome { decision: LoopDecision::RetryPage, events };
        }
        self.page_attempts = 0;
        self.error_count = if self.error_count < u32::MAX { self.error_count + 1 } else { u32::MAX };
        self.consecutive_failures = if self.consecutive_failures < u32::MAX {
            self.consecutive_failures + 1
        } else {
            u32::MAX
        };
        assert(*self == skipped(s));
        if self.consecutive_failures >= self.failure_threshold {
            let ghost first = events@[0];
            let ev = self.end_failed(now);
            let st = SessionStatusEvent {
                session_id: ev.session_id,
                old_status: SessionStatus::Capturing,
                new_status: ev.new_status,
                timestamp: ev.timestamp,
            };
            assert(st == status_event(s, SessionStatus::Failed, now));
            events.push(EngineEvent::Status(st));
            assert(events@ =~= seq![first, EngineEvent::Status(status_event(s, SessionStatus::Failed, now))]);
            return StepOutcome { decision: LoopDecision::Halt, events };
        }
        StepOutcome { decision: LoopDecision::NextPage, events }
    }

    fn end_failed(&mut self, now: i64) -> (ev: SessionStatusEvent)
        requires
            old(self).wf(),
            !old(self).status.spec_is_terminal(),
        ensures
            final(self).wf(),
            *final(self) == ended(*old(self), SessionStatus::Failed, now),
            ev == status_event(*old(self), SessionStatus::Failed, now),
    {
        match self.fail(now) {
            Some(e) => e,
            None => SessionStatusEvent {
                session_id: self.id,
                old_status: self.status,
                new_status: SessionStatus::Failed,
                timestamp: now,
            },
        }
    }

    /// The outcome of the page-turn command. A failure is retried while
    /// attempts remain.
    pub fn automation_done(&mut self, result: Result<u32, AutomationError>, now: i64) -> (r: StepOutcome)
        requires
            old(self).wf(),
        ensures
            final(self).wf(),
            follows(old(self).status, final(self).status),
            old(self).last_page_captured <= final(self).last_page_captured,
            automation_step(*old(self), result, now, r, *final(self)),
    {
        if !matches!(self.status, SessionStatus::Capturing) {
            return StepOutcome { decision: LoopDecision::Halt, events: Vec::new() };
        }
        match result {
            Ok(_) => StepOutcome { decision: LoopDecision::Proceed, events: Vec::new() },
            Err(e) => self.attempt_failed(e.describe(), now),
        }
    }
}

/// A captured screenshot as the session stores it: numbered as the next page
/// and owned by the session.
pub open spec fn stored_shot(s: BookSession, shot: Screenshot) -> Screenshot {
    Screenshot { page_number: (s.last_page_captured + 1) as u32, book_session_id: s.id, ..shot }
}

/// The new capture has the same checksum as the one before it.
pub open spec fn repeats_last(s: BookSession, shot: Screenshot) -> bool {
    s.screenshots@.len() > 0 && s.screenshots@.last().metadata.checksum@ == shot.metadata.checksum@
}

/// The anomaly raised when a capture repeats the checksum before it.
pub open spec fn anomaly_of(s: BookSession, shot: Screenshot) -> CaptureAnomalyEvent {
    CaptureAnomalyEvent {
        session_id: s.id,
        page_number: (s.last_page_captured + 1) as u32,
        checksum: shot.metadata.checksum,
    }
}

/// The events of a recorded capture, before any change of status: its
/// progress, then an anomaly where the checksum repeats the one before.
pub open spec fn capture_events(s: BookSession, shot: Screenshot, t: BookSession, now: i64) -> Seq<EngineEvent> {
    if repeats_last(s, shot) {
        seq![EngineEvent::Progress(progress_event(t, now)), EngineEvent::Anomaly(anomaly_of(s, shot))]
    } else {
        seq![EngineEvent::Progress(progress_event(t, now))]
    }
}

/// A capture ends the session: two consecutive identical checksums with
/// completion detection on, or the estimated page count reached.
pub open spec fn completes(s: BookSession, shot: Screenshot) -> bool {
    &&& s.status is Capturing
    &&& (s.settings.auto_detect_completion && repeats_last(s, shot)) || (s.total_pages_estimated matches Some(
        n,
    ) && s.last_page_captured + 1 >= n)
}

/// `t` is `s` with one more page recorded; status, end time and summary
/// are stated apart.
pub open spec fn records(s: BookSession, shot: Screenshot, t: BookSession) -> bool {
    &&& t.screenshots@ == s.screenshots@.push(stored_shot(s, shot))
    &&& t.total_pages_captured == s.total_pages_captured + 1
    &&& t.last_page_captured == s.last_page_captured + 1
    &&& t.page_attempts == 0
    &&& t.consecutive_failures == 0
    &&& t.total_capture_time_ms == sat_add64(s.total_capture_time_ms, shot.capture_duration_ms as u64)
    &&& t.total_file_size_bytes == sat_add64(s.total_file_size_bytes, shot.file_size_bytes)
    &&& t.error_count == s.error_count
    &&& t.id == s.id
    &&& t.book_title == s.book_title
    &&& t.start_time == s.start_time
    &&& t.target_app == s.target_app
    &&& t.settings == s.settings
    &&& t.output_directory == s.output_directory
    &&& t.total_pages_estimated == s.total_pages_estimated
    &&& t.failure_threshold == s.failure_threshold
}

/// The progress of a session at `now`.
pub open spec fn progress_event(t: BookSession, now: i64) -> CaptureProgressEvent {
    let el = elapsed_ms(t.start_time, now);
    let cur = t.last_page_captured;
    CaptureProgressEvent {
        session_id: t.id,
        current_page: cur,
        total_pages: t.total_pages_estimated,
        elapsed_time_ms: el,
        estimated_remaining_ms: match t.total_pages_estimated {
            Some(n) => if n > cur && cur > 0 {
                let v = (el / cur as u64) as int * (n - cur);
                Some(if v > u64::MAX as int { u64::MAX } else { v as u64 })
            } else {
                None
            },
            None => None,
        },
        capture_rate_milli: if el > 0 { (cur as int * 60000000 / el as int) as u64 } else { 0 },
    }
}

impl BookSession {
    /// The progress event of this session at `now`.
    pub fn progress(&self, now: i64) -> (e: CaptureProgressEvent)
        ensures
            e == progress_event(*self, now),
    {
        let el: u64 = if now > self.start_time {
            (now as i128 - self.start_time as i128) as u64
        } else {
            0
        };
        let cur: u32 = self.last_page_captured;
        let remaining: Option<u64> = match self.total_pages_estimated {
            Some(n) => if n > cur && cur > 0 {
                let per: u64 = el / (cur as u64);
                let left: u64 = (n - cur) as u64;
                proof {
                    assert(per as int * left as int <= u64::MAX as int * u32::MAX as int) by (nonlinear_arith)
                        requires per <= u64::MAX, left <= u32::MAX;
                }
                let v: u128 = per as u128 * left as u128;
                Some(if v > u64::MAX as u128 { u64::MAX } else { v as u64 })
            } else {
                None
            },
            None => None,
        };
        proof {
            assert(cur as int * 60000000 <= u32::MAX as int * 60000000) by (nonlinear_arith)
                requires cur <= u32::MAX;
        }
        let rate: u64 = if el > 0 { (cur as u64) * 60000000 / el } else { 0 };
        CaptureProgressEvent {
            session_id: self.id,
            current_page: cur,
            total_pages: self.total_pages_estimated,
            elapsed_time_ms: el,
            estimated_remaining_ms: remaining,
            capture_rate_milli: rate,
        }
    }

    /// Appends a capture as the next page.
    fn record(&mut self, shot: Screenshot)
        requires
            old(self).wf(),
            old(self).last_page_captured < u32::MAX,
        ensures
            final(self).wf(),
            records(*old(self), shot, *final(self)),
            final(self).status == old(self).status,
            final(self).end_time == old(self).end_time,
            final(self).session_summary == old(self).session_summary,
    {
        let ghost s = *self;
        let page: u32 = self.last_page_captured + 1;
        let mut stored = shot;
        stored.page_number = page;
        stored.book_session_id = self.id;
        assert(stored == stored_shot(s, shot));
        let d: u64 = stored.capture_duration_ms as u64;
        self.total_capture_time_ms = if self.total_capture_time_ms > u64::MAX - d {
            u64::MAX
        } else {
            self.total_capture_time_ms + d
        };
        self.total_file_size_bytes = if self.total_file_size_bytes > u64::MAX - stored.file_size_bytes {
            u64::MAX
        } else {
            self.total_file_size_bytes + stored.file_size_bytes
        };
        self.screenshots.push(stored);
        self.total_pages_captured = page;
        self.last_page_captured = page;
        self.page_attempts = 0;
        self.consecutive_failures = 0;
        assert forall|i: int| 0 <= i < self.screenshots@.len() implies #[trigger] self.screenshots@[i].page_number
            == i + 1 && self.screenshots@[i].book_session_id == self.id by {
            if i < s.screenshots@.len() {
                assert(self.screenshots@[i] == s.screenshots@[i]);
            }
        }
    }

    /// The outcome of a capture. A capture that finished is recorded even if
    /// the session was paused meanwhile; a full disk quota fails the session;
    /// other failures are retried while attempts remain.
    pub fn capture_done(&mut self, result: Result<Screenshot, CaptureError>, now: i64) -> (r: StepOutcome)
        requires
            old(self).wf(),
        ensures
            final(self).wf(),
            follows(old(self).status, final(self).status),
            old(self).last_page_captured <= final(self).last_page_captured,
            capture_step(*old(self), result, now, r, *final(self)),
    {
        if !matches!(self.status, SessionStatus::Capturing | SessionStatus::Paused) {
            return StepOutcome { decision: LoopDecision::Halt, events: Vec::new() };
        }
        match result {
            Ok(shot) => {
                if self.last_page_captured == u32::MAX {
                    return self.fail_step(now);
                }
                let ghost s0 = *self;
                let capturing = matches!(self.status, SessionStatus::Capturing);
                let n: usize = self.screenshots.len();
                let repeated = n > 0 && self.screenshots[n - 1].metadata.checksum == shot.metadata.checksum;
                let reached = match self.total_pages_estimated {
                    Some(t) => self.last_page_captured as u64 + 1 >= t as u64,
                    None => false,
                };
                let done = capturing && ((self.settings.auto_detect_completion && repeated) || reached);
                assert(done == completes(*self, shot));
                assert(repeated == repeats_last(*self, shot));
                let anomaly = CaptureAnomalyEvent {
                    session_id: self.id,
                    page_number: self.last_page_captured + 1,
                    checksum: shot.metadata.checksum.clone(),
                };
                assert(anomaly == anomaly_of(s0, shot));
                self.record(shot);
                let progress = self.progress(now);
                let mut events = single(EngineEvent::Progress(progress));
                if repeated {
                    events.push(EngineEvent::Anomaly(anomaly));
                }
                assert(events@ =~= capture_events(s0, shot, *self, now));
                if done {
                    let ghost before = events@;
                    let ev = self.end_with(SessionStatus::Completed, now);
                    events.push(EngineEvent::Status(ev));
                    assert(events@ =~= before.push(EngineEvent::Status(ev)));
                    return StepOutcome { decision: LoopDecision::Halt, events };
                }
                let decision = if capturing { LoopDecision::NextPage } else { LoopDecision::Halt };
                StepOutcome { decision, events }
            },
            Err(e) => {
                if matches!(e, CaptureError::DiskWrite { quota_exceeded: true }) {
                    return self.fail_step(now);
                }
                if matches!(self.status, SessionStatus::Capturing) {
                    self.attempt_failed(e.describe(), now)
                } else {
                    StepOutcome { decision: LoopDecision::Halt, events: Vec::new() }
                }
            },
        }
    }
}

/// What the loop hands to the engine after a step.
#[derive(Debug)]
pub enum LoopInput {
    Permissions(PermissionStatus),
    Target(bool),
    Automation(Result<u32, AutomationError>),
    Capture(Result<Screenshot, CaptureError>),
}

/// The contract of one loop step, by the kind of input.
pub open spec fn step_spec(s: BookSession, input: LoopInput, now: i64, r: StepOutcome, t: BookSession) -> bool {
    match input {
        LoopInput::Permissions(p) => permission_step(s, p, now, r, t),
        LoopInput::Target(b) => target_step(s, b, now, r, t),
        LoopInput::Automation(a) => automation_step(s, a, now, r, t),
        LoopInput::Capture(c) => capture_step(s, c, now, r, t),
    }
}

/// What every change of a session keeps: its identity and invariant, the
/// edges of the state machine, and pages that never go backwards.
pub open spec fn step_ok(s: BookSession, t: BookSession) -> bool {
    &&& t.wf()
    &&& t.id == s.id
    &&& follows(s.status, t.status)
    &&& s.last_page_captured <= t.last_page_captured
}

impl BookSession {
    /// Hands one loop input to its handler.
    pub fn step(&mut self, input: LoopInput, now: i64) -> (r: StepOutcome)
        requires
            old(self).wf(),
        ensures
            step_ok(*old(self), *final(self)),
            step_spec(*old(self), input, now, r, *final(self)),
    {
        match input {
            LoopInput::Permissions(p) => self.check_permissions(p, now),
            LoopInput::Target(b) => self.check_target(b, now),
            LoopInput::Automation(a) => self.automation_done(a, now),
            LoopInput::Capture(c) => self.capture_done(c, now),
        }
    }
}

} // verus!
