//! The capture session record and its state machine.

use vstd::prelude::*;
use crate::model::{AppTarget, Screenshot, SessionStatus, SessionStatusEvent, SessionSummary};
use crate::settings::{patched, settings_valid, CaptureSettings, SettingsPatch, validation_message};

verus! {

/// Why a command or a loop step was refused or why a session failed.
#[derive(Debug, Clone)]
pub enum EngineError {
    /// Bad settings, rejected before any change of state.
    Validation(String),
    /// A required operating-system permission is missing or was revoked.
    Permission,
    /// The target window or process no longer resolves.
    StaleTarget,
    /// The command does not apply to a session in this status.
    InvalidState(SessionStatus),
    /// No session has this id.
    NotFound(u128),
    /// Another active session already drives this window.
    WindowBusy(u64),
    /// A fresh session id collided with an existing one.
    DuplicateId(u128),
}

/// The edges of the session state machine.
pub open spec fn edge(a: SessionStatus, b: SessionStatus) -> bool {
    match (a, b) {
        (SessionStatus::Initializing, SessionStatus::WaitingForStart) => true,
        (SessionStatus::WaitingForStart, SessionStatus::Capturing) => true,
        (SessionStatus::Paused, SessionStatus::Capturing) => true,
        (SessionStatus::Capturing, SessionStatus::Paused) => true,
        (SessionStatus::Capturing, SessionStatus::Completed) => true,
        (_, SessionStatus::Cancelled) => !a.spec_is_terminal(),
        (_, SessionStatus::Failed) => !a.spec_is_terminal(),
        _ => false,
    }
}

/// A status stays as it is or moves along one edge.
pub open spec fn follows(a: SessionStatus, b: SessionStatus) -> bool {
    a == b || edge(a, b)
}

/// One end-to-end run of capturing a book's pages.
#[derive(Debug, Clone)]
pub struct BookSession {
    pub id: u128,
    pub book_title: String,
    pub start_time: i64,
    pub end_time: Option<i64>,
    pub status: SessionStatus,
    pub target_app: AppTarget,
    pub settings: CaptureSettings,
    pub output_directory: String,
    pub total_pages_captured: u32,
    pub total_pages_estimated: Option<u32>,
    pub last_page_captured: u32,
    pub error_count: u32,
    pub session_summary: Option<SessionSummary>,
    /// The screenshots of the session, in page order.
    pub screenshots: Vec<Screenshot>,
    /// Failed attempts at the current page.
    pub page_attempts: u32,
    /// Pages skipped in a row after exhausting their attempts.
    pub consecutive_failures: u32,
    /// Sum of the capture durations, in milliseconds.
    pub total_capture_time_ms: u64,
    /// Sum of the file sizes, in bytes.
    pub total_file_size_bytes: u64,
    /// Pages skipped in a row after which the session fails.
    pub failure_threshold: u32,
}

pub open spec fn elapsed_ms(start: i64, now: i64) -> u64 {
    if now > start { (now - start) as u64 } else { 0 }
}

/// The summary of a session that ends at `now`.
pub open spec fn summary_of(s: BookSession, now: i64) -> SessionSummary {
    let d = elapsed_ms(s.start_time, now);
    let pages = s.total_pages_captured as u64;
    let attempts = (pages + s.error_count as u64) as u64;
    SessionSummary {
        total_duration_ms: d,
        pages_per_minute_milli: if d > 0 { (pages as int * 60000000 / d as int) as u64 } else { 0 },
        average_capture_time_ms: if pages > 0 { s.total_capture_time_ms / pages } else { 0 },
        total_file_size_kb: s.total_file_size_bytes / 1024,
        error_rate_milli: if attempts > 0 { (s.error_count as int * 1000 / attempts as int) as u64 } else { 0 },
    }
}

/// The session after it ends in `status` at `now`, with its summary.
pub open spec fn ended(s: BookSession, status: SessionStatus, now: i64) -> BookSession {
    BookSession { status, end_time: Some(now), session_summary: Some(summary_of(s, now)), ..s }
}

/// The session with a new status and nothing else changed.
pub open spec fn moved(s: BookSession, status: SessionStatus) -> BookSession {
    BookSession { status, ..s }
}

pub open spec fn status_event(s: BookSession, new_status: SessionStatus, now: i64) -> SessionStatusEvent {
    SessionStatusEvent { session_id: s.id, old_status: s.status, new_status, timestamp: now }
}

/// The pages of a sequence of screenshots.
pub open spec fn pages_of(shots: Seq<Screenshot>) -> Seq<u32> {
    shots.map_values(|x: Screenshot| x.page_number)
}

/// A session just created: waiting for its start, with nothing captured,
/// no errors and no end, storing under the settings' base directory.
pub open spec fn fresh_session(
    s: BookSession,
    id: u128,
    book_title: String,
    target_app: AppTarget,
    settings: CaptureSettings,
    now: i64,
) -> bool {
    &&& s.wf()
    &&& s.id == id
    &&& s.book_title == book_title
    &&& s.start_time == now
    &&& s.end_time is None
    &&& s.status == SessionStatus::WaitingForStart
    &&& s.target_app == target_app
    &&& s.settings == settings
    &&& s.output_directory == settings.storage_settings.base_directory
    &&& s.total_pages_captured == 0
    &&& s.total_pages_estimated is None
    &&& s.last_page_captured == 0
    &&& s.error_count == 0
    &&& s.session_summary is None
    &&& s.screenshots@.len() == 0
    &&& s.page_attempts == 0
    &&& s.consecutive_failures == 0
    &&& s.total_capture_time_ms == 0
    &&& s.total_file_size_bytes == 0
    &&& s.failure_threshold == crate::control::DEFAULT_FAILURE_THRESHOLD
}

impl BookSession {
    /// The session's invariant: counters agree with the screenshots, which
    /// are numbered 1, 2, ... in order; end time and summary are set exactly
    /// in a terminal status; the settings are valid.
    pub open spec fn wf(&self) -> bool {
        &&& self.last_page_captured <= self.total_pages_captured
        &&& self.last_page_captured == self.total_pages_captured
        &&& self.screenshots@.len() == self.total_pages_captured
        &&& forall|i: int| 0 <= i < self.screenshots@.len() ==> #[trigger] self.screenshots@[i].page_number == i + 1
        &&& forall|i: int| 0 <= i < self.screenshots@.len() ==> #[trigger] self.screenshots@[i].book_session_id == self.id
        &&& (self.end_time is Some <==> self.status.spec_is_terminal())
        &&& (self.session_summary is Some <==> self.status.spec_is_terminal())
        &&& settings_valid(self.settings)
        &&& self.page_attempts < self.settings.max_capture_attempts
    }

    /// The page number that the next capture receives.
    pub open spec fn next_page(&self) -> int {
        self.last_page_captured + 1
    }

    pub fn is_active(&self) -> (r: bool)
        ensures
            r == (self.status is Capturing || self.status is Paused),
    {
        matches!(self.status, SessionStatus::Capturing | SessionStatus::Paused)
    }

    pub fn can_be_started(&self) -> (r: bool)
        ensures
            r == (self.status is WaitingForStart || self.status is Paused),
    {
        matches!(self.status, SessionStatus::WaitingForStart | SessionStatus::Paused)
    }

    pub fn can_be_paused(&self) -> (r: bool)
        ensures
            r == (self.status is Capturing),
    {
        matches!(self.status, SessionStatus::Capturing)
    }

    /// A new session waiting for its start, or the reason it cannot be
    /// created: invalid settings first, then a target that no longer
    /// resolves.
    pub fn new(
        id: u128,
        book_title: String,
        target_app: AppTarget,
        settings: CaptureSettings,
        now: i64,
    ) -> (r: Result<BookSession, EngineError>)
        ensures
            !settings_valid(settings) ==> (r matches Err(EngineError::Validation(m)) && m@ == validation_message(settings)),
            settings_valid(settings) && !target_app.is_active ==> r matches Err(EngineError::StaleTarget),
            settings_valid(settings) && target_app.is_active ==> (r matches Ok(s) && fresh_session(
                s,
                id,
                book_title,
                target_app,
                settings,
                now,
            )),
    {
        match settings.validate() {
            Err(m) => {
                return Err(EngineError::Validation(m));
            },
            Ok(()) => {},
        }
        if !target_app.is_active {
            return Err(EngineError::StaleTarget);
        }
        let output_directory = settings.storage_settings.base_directory.clone();
        Ok(BookSession {
            id,
            book_title,
            start_time: now,
            end_time: None,
            status: SessionStatus::WaitingForStart,
            target_app,
            settings,
            output_directory,
            total_pages_captured: 0,
            total_pages_estimated: None,
            last_page_captured: 0,
            error_count: 0,
            session_summary: None,
            screenshots: Vec::new(),
            page_attempts: 0,
            consecutive_failures: 0,
            total_capture_time_ms: 0,
            total_file_size_bytes: 0,
            failure_threshold: crate::control::DEFAULT_FAILURE_THRESHOLD,
        })
    }
}

impl BookSession {
    /// The summary of this session if it ends at `now`.
    pub fn compute_summary(&self, now: i64) -> (r: SessionSummary)
        ensures
            r == summary_of(*self, now),
    {
        let d: u64 = if now > self.start_time {
            (now as i128 - self.start_time as i128) as u64
        } else {
            0
        };
        let pages: u64 = self.total_pages_captured as u64;
        let errors: u64 = self.error_count as u64;
        let attempts: u64 = pages + errors;
        proof {
            assert(pages * 60000000 <= u32::MAX as int * 60000000) by (nonlinear_arith)
                requires pages <= u32::MAX;
            assert(errors * 1000 <= u32::MAX as int * 1000) by (nonlinear_arith)
                requires errors <= u32::MAX;
        }
        SessionSummary {
            total_duration_ms: d,
            pages_per_minute_milli: if d > 0 { pages * 60000000 / d } else { 0 },
            average_capture_time_ms: if pages > 0 { self.total_capture_time_ms / pages } else { 0 },
            total_file_size_kb: self.total_file_size_bytes / 1024,
            error_rate_milli: if attempts > 0 { errors * 1000 / attempts } else { 0 },
        }
    }

    /// Moves a session that has not ended into the terminal `status` at `now`,
    /// computing its summary.
    pub(crate) fn end_with(&mut self, status: SessionStatus, now: i64) -> (ev: SessionStatusEvent)
        requires
            old(self).wf(),
            !old(self).status.spec_is_terminal(),
            status.spec_is_terminal(),
        ensures
            *final(self) == ended(*old(self), status, now),
            final(self).wf(),
            ev == status_event(*old(self), status, now),
    {
        let summary = self.compute_summary(now);
        let ev = SessionStatusEvent { session_id: self.id, old_status: self.status, new_status: status, timestamp: now };
        self.status = status;
        self.end_time = Some(now);
        self.session_summary = Some(summary);
        ev
    }

    /// Starts or resumes capturing: allowed from `WaitingForStart` and `Paused`.
    pub fn start(&mut self, now: i64) -> (r: Result<SessionStatusEvent, EngineError>)
        requires
            old(self).wf(),
        ensures
            final(self).wf(),
            crate::control::step_ok(*old(self), *final(self)),
            (old(self).status is WaitingForStart || old(self).status is Paused) ==> {
                &&& *final(self) == moved(*old(self), SessionStatus::Capturing)
                &&& r == Ok::<SessionStatusEvent, EngineError>(status_event(*old(self), SessionStatus::Capturing, now))
            },
            !(old(self).status is WaitingForStart || old(self).status is Paused) ==> {
                &&& *final(self) == *old(self)
                &&& r matches Err(EngineError::InvalidState(st)) && st == old(self).status
            },
    {
        if !self.can_be_started() {
            return Err(EngineError::InvalidState(self.status));
        }
        let ev = SessionStatusEvent {
            session_id: self.id,
            old_status: self.status,
            new_status: SessionStatus::Capturing,
            timestamp: now,
        };
        self.status = SessionStatus::Capturing;
        Ok(ev)
    }

    /// Pauses a capturing session. Counters and screenshots are kept as they are.
    pub fn pause(&mut self, now: i64) -> (r: Result<SessionStatusEvent, EngineError>)
        requires
            old(self).wf(),
        ensures
            final(self).wf(),
            crate::control::step_ok(*old(self), *final(self)),
            old(self).status is Capturing ==> {
                &&& *final(self) == moved(*old(self), SessionStatus::Paused)
                &&& r == Ok::<SessionStatusEvent, EngineError>(status_event(*old(self), SessionStatus::Paused, now))
            },
            !(old(self).status is Capturing) ==> {
                &&& *final(self) == *old(self)
                &&& r matches Err(EngineError::InvalidState(st)) && st == old(self).status
            },
    {
        if !self.can_be_paused() {
            return Err(EngineError::InvalidState(self.status));
        }
        let ev = SessionStatusEvent {
            session_id: self.id,
            old_status: self.status,
            new_status: SessionStatus::Paused,
            timestamp: now,
        };
        self.status = SessionStatus::Paused;
        Ok(ev)
    }

    /// Resumes a paused session.
    pub fn resume(&mut self, now: i64) -> (r: Result<SessionStatusEvent, EngineError>)
        requires
            old(self).wf(),
        ensures
            final(self).wf(),
            crate::control::step_ok(*old(self), *final(self)),
            old(self).status is Paused ==> {
                &&& *final(self) == moved(*old(self), SessionStatus::Capturing)
                &&& r == Ok::<SessionStatusEvent, EngineError>(status_event(*old(self), SessionStatus::Capturing, now))
            },
            !(old(self).status is Paused) ==> {
                &&& *final(self) == *old(self)
                &&& r matches Err(EngineError::InvalidState(st)) && st == old(self).status
            },
    {
        if !matches!(self.status, SessionStatus::Paused) {
            return Err(EngineError::InvalidState(self.status));
        }
        self.start(now)
    }

    /// Stops a capturing or paused session as `Cancelled` and returns its
    /// summary. On a session that has already ended it changes nothing and
    /// returns the summary it has.
    pub fn stop(&mut self, now: i64) -> (r: Result<SessionSummary, EngineError>)
        requires
            old(self).wf(),
        ensures
            final(self).wf(),
            crate::control::step_ok(*old(self), *final(self)),
            old(self).status.spec_is_terminal() ==> {
                &&& *final(self) == *old(self)
                &&& r == Ok::<SessionSummary, EngineError>(old(self).session_summary->Some_0)
            },
            (old(self).status is Capturing || old(self).status is Paused) ==> {
                &&& *final(self) == ended(*old(self), SessionStatus::Cancelled, now)
                &&& r == Ok::<SessionSummary, EngineError>(summary_of(*old(self), now))
            },
            (old(self).status is Initializing || old(self).status is WaitingForStart) ==> {
                &&& *final(self) == *old(self)
                &&& r matches Err(EngineError::InvalidState(st)) && st == old(self).status
            },
    {
        match self.status {
            SessionStatus::Completed | SessionStatus::Cancelled | SessionStatus::Failed => {
                match self.session_summary {
                    Some(summary) => Ok(summary),
                    None => Ok(self.compute_summary(now)),
                }
            },
            SessionStatus::Capturing | SessionStatus::Paused => {
                let _ = self.end_with(SessionStatus::Cancelled, now);
                Ok(self.compute_summary_cached())
            },
            _ => Err(EngineError::InvalidState(self.status)),
        }
    }

    fn compute_summary_cached(&self) -> (r: SessionSummary)
        requires
            self.session_summary is Some,
        ensures
            r == self.session_summary->Some_0,
    {
        match self.session_summary {
            Some(summary) => summary,
            None => SessionSummary {
                total_duration_ms: 0,
                pages_per_minute_milli: 0,
                average_capture_time_ms: 0,
                total_file_size_kb: 0,
                error_rate_milli: 0,
            },
        }
    }

    /// Cancels a session that has not ended (the emergency stop). A session
    /// that has ended is left as it is.
    pub fn cancel(&mut self, now: i64) -> (r: Option<SessionStatusEvent>)
        requires
            old(self).wf(),
        ensures
            final(self).wf(),
            crate::control::step_ok(*old(self), *final(self)),
            !old(self).status.spec_is_terminal() ==> {
                &&& *final(self) == ended(*old(self), SessionStatus::Cancelled, now)
                &&& r == Some(status_event(*old(self), SessionStatus::Cancelled, now))
            },
            old(self).status.spec_is_terminal() ==> *final(self) == *old(self) && r is None,
    {
        if self.status.is_terminal() {
            return None;
        }
        Some(self.end_with(SessionStatus::Cancelled, now))
    }

    /// Fails a session that has not ended after an unrecoverable error. A
    /// session that has ended is left as it is.
    pub fn fail(&mut self, now: i64) -> (r: Option<SessionStatusEvent>)
        requires
            old(self).wf(),
        ensures
            final(self).wf(),
            crate::control::step_ok(*old(self), *final(self)),
            !old(self).status.spec_is_terminal() ==> {
                &&& *final(self) == ended(*old(self), SessionStatus::Failed, now)
                &&& r == Some(status_event(*old(self), SessionStatus::Failed, now))
            },
            old(self).status.spec_is_terminal() ==> *final(self) == *old(self) && r is None,
    {
        if self.status.is_terminal() {
            return None;
        }
        Some(self.end_with(SessionStatus::Failed, now))
    }

    /// Applies a partial settings update. Refused while capturing, and when
    /// the updated settings would be invalid; the session is then unchanged.
    pub fn update_settings(&mut self, patch: SettingsPatch) -> (r: Result<(), EngineError>)
        requires
            old(self).wf(),
        ensures
            final(self).wf(),
            crate::control::step_ok(*old(self), *final(self)),
            old(self).status is Capturing ==> {
                &&& *final(self) == *old(self)
                &&& r matches Err(EngineError::Validation(m)) && m@ == capturing_update_message()
            },
            !(old(self).status is Capturing) && !settings_valid(patched(old(self).settings, patch)) ==> {
                &&& *final(self) == *old(self)
                &&& r matches Err(EngineError::Validation(m))
                    && m@ == validation_message(patched(old(self).settings, patch))
            },
            !(old(self).status is Capturing) && settings_valid(patched(old(self).settings, patch)) ==> {
                &&& *final(self) == (BookSession {
                    settings: patched(old(self).settings, patch),
                    page_attempts: 0,
                    ..*old(self)
                })
                &&& r is Ok
            },
    {
        if matches!(self.status, SessionStatus::Capturing) {
            proof { reveal_strlit("Settings cannot be changed while capturing"); }
            return Err(EngineError::Validation("Settings cannot be changed while capturing".to_string()));
        }
        let candidate = self.settings.duplicate().apply_patch(patch);
        match candidate.validate() {
            Err(m) => Err(EngineError::Validation(m)),
            Ok(()) => {
                self.settings = candidate;
                self.page_attempts = 0;
                Ok(())
            },
        }
    }
}

pub open spec fn capturing_update_message() -> Seq<char> {
    "Settings cannot be changed while capturing"@
}

impl BookSession {
    /// The entries of this session's screenshots, in page order.
    pub fn export_screenshots(&self) -> (r: Vec<crate::export::ExportEntry>)
        ensures
            r@ == self.screenshots@.map_values(|x: Screenshot| crate::export::entry_of(x)),
    {
        crate::export::export_entries(&self.screenshots)
    }
}

impl BookSession {
    /// Sets how many pages skipped in a row fail the session. Refused while
    /// capturing, and for 0; the session is then unchanged.
    pub fn set_failure_threshold(&mut self, n: u32) -> (r: Result<(), EngineError>)
        requires
            old(self).wf(),
        ensures
            final(self).wf(),
            crate::control::step_ok(*old(self), *final(self)),
            old(self).status is Capturing ==> {
                &&& *final(self) == *old(self)
                &&& r matches Err(EngineError::Validation(m)) && m@ == capturing_update_message()
            },
            !(old(self).status is Capturing) && n == 0 ==> {
                &&& *final(self) == *old(self)
                &&& r matches Err(EngineError::Validation(m)) && m@ == threshold_message()
            },
            !(old(self).status is Capturing) && n > 0 ==> {
                &&& *final(self) == (BookSession { failure_threshold: n, ..*old(self) })
                &&& r is Ok
            },
    {
        if matches!(self.status, SessionStatus::Capturing) {
            proof { reveal_strlit("Settings cannot be changed while capturing"); }
            return Err(EngineError::Validation("Settings cannot be changed while capturing".to_string()));
        }
        if n == 0 {
            proof { reveal_strlit("Failure threshold must be at least 1"); }
            return Err(EngineError::Validation("Failure threshold must be at least 1".to_string()));
        }
        self.failure_threshold = n;
        Ok(())
    }
}

pub open spec fn threshold_message() -> Seq<char> {
    "Failure threshold must be at least 1"@
}

} // verus!
