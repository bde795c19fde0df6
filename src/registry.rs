//! The registry of sessions: creation, lookup, listing, deletion, the
//! commands by session id, and the emergency stop of every session.

use vstd::prelude::*;
use crate::control::{step_ok, step_spec, LoopInput, StepOutcome};
use crate::model::{AppTarget, SessionStatus, SessionStatusEvent, SessionSummary};
use crate::session::{ended, BookSession, EngineError};
use crate::settings::{settings_valid, CaptureSettings, SettingsPatch};
use crate::export::{entry_of, ExportEntry};
use crate::model::Screenshot;

verus! {

/// The ids of a sequence of sessions.
pub open spec fn ids_of(ss: Seq<BookSession>) -> Seq<u128> {
    ss.map_values(|s: BookSession| s.id)
}

pub open spec fn has_id(ss: Seq<BookSession>, id: u128) -> bool {
    exists|i: int| 0 <= i < ss.len() && #[trigger] ss[i].id == id
}

pub open spec fn status_matches(s: BookSession, status: Option<SessionStatus>) -> bool {
    match status {
        Some(st) => s.status == st,
        None => true,
    }
}

/// The ids of the sessions in `ss` whose status matches, in order.
pub open spec fn matching_ids(ss: Seq<BookSession>, status: Option<SessionStatus>) -> Seq<u128>
    decreases ss.len(),
{
    if ss.len() == 0 {
        Seq::empty()
    } else {
        let rest = matching_ids(ss.drop_last(), status);
        if status_matches(ss.last(), status) {
            rest.push(ss.last().id)
        } else {
            rest
        }
    }
}

/// The ids of the sessions in `ss` that have not ended, in order.
pub open spec fn live_ids(ss: Seq<BookSession>) -> Seq<u128>
    decreases ss.len(),
{
    if ss.len() == 0 {
        Seq::empty()
    } else {
        let rest = live_ids(ss.drop_last());
        if !ss.last().status.spec_is_terminal() {
            rest.push(ss.last().id)
        } else {
            rest
        }
    }
}

/// A page of a listing: `limit` items (all where absent) from `offset`
/// (0 where absent).
pub open spec fn page_of<T>(ids: Seq<T>, limit: Option<u32>, offset: Option<u32>) -> Seq<T> {
    let start = match offset {
        Some(o) => if o as int <= ids.len() { o as int } else { ids.len() as int },
        None => 0,
    };
    let end = match limit {
        Some(l) => if start + l as int <= ids.len() { start + l as int } else { ids.len() as int },
        None => ids.len() as int,
    };
    ids.subrange(start, end)
}

/// The emergency stop of one session: cancelled if it has not ended.
pub open spec fn stopped(s: BookSession, now: i64) -> BookSession {
    if s.status.spec_is_terminal() {
        s
    } else {
        ended(s, SessionStatus::Cancelled, now)
    }
}

/// Every session is well formed and no two share an id.
pub open spec fn sessions_wf(ss: Seq<BookSession>) -> bool {
    &&& forall|i: int| 0 <= i < ss.len() ==> (#[trigger] ss[i]).wf()
    &&& forall|i: int, j: int| 0 <= i < ss.len() && 0 <= j < ss.len() && i != j ==> #[trigger] ss[i].id != #[trigger] ss[j].id
}

/// Another active session drives the window of the session at `i`.
pub open spec fn window_busy(ss: Seq<BookSession>, i: int) -> bool {
    exists|j: int|
        0 <= j < ss.len() && j != i && (#[trigger] ss[j]).target_app.window_id == ss[i].target_app.window_id && (
        ss[j].status is Capturing || ss[j].status is Paused)
}

proof fn lemma_replace(ss: Seq<BookSession>, i: int, t: BookSession)
    requires
        sessions_wf(ss),
        0 <= i < ss.len(),
        t.wf(),
        t.id == ss[i].id,
    ensures
        sessions_wf(ss.update(i, t)),
        ss.remove(i).insert(i, t) == ss.update(i, t),
{
    assert(ss.remove(i).insert(i, t) =~= ss.update(i, t));
    let u = ss.update(i, t);
    assert forall|a: int, b: int| 0 <= a < u.len() && 0 <= b < u.len() && a != b implies #[trigger] u[a].id
        != #[trigger] u[b].id by {
        assert(ss[a].id != ss[b].id);
    }
}

proof fn lemma_remove(ss: Seq<BookSession>, i: int)
    requires
        sessions_wf(ss),
        0 <= i < ss.len(),
    ensures
        sessions_wf(ss.remove(i)),
{
    let u = ss.remove(i);
    assert forall|a: int| 0 <= a < u.len() implies (#[trigger] u[a]).wf() by {
        if a < i { assert(u[a] == ss[a]); } else { assert(u[a] == ss[a + 1]); }
    }
    assert forall|a: int, b: int| 0 <= a < u.len() && 0 <= b < u.len() && a != b implies #[trigger] u[a].id
        != #[trigger] u[b].id by {
        let a2 = if a < i { a } else { a + 1 };
        let b2 = if b < i { b } else { b + 1 };
        assert(u[a] == ss[a2] && u[b] == ss[b2]);
    }
}

proof fn lemma_matching_step(ss: Seq<BookSession>, i: int, status: Option<SessionStatus>)
    requires
        0 <= i < ss.len(),
    ensures
        matching_ids(ss.subrange(0, i + 1), status) == if status_matches(ss[i], status) {
            matching_ids(ss.subrange(0, i), status).push(ss[i].id)
        } else {
            matching_ids(ss.subrange(0, i), status)
        },
{
    assert(ss.subrange(0, i + 1).drop_last() =~= ss.subrange(0, i));
}

proof fn lemma_live_step(ss: Seq<BookSession>, i: int)
    requires
        0 <= i < ss.len(),
    ensures
        live_ids(ss.subrange(0, i + 1)) == if !ss[i].status.spec_is_terminal() {
            live_ids(ss.subrange(0, i)).push(ss[i].id)
        } else {
            live_ids(ss.subrange(0, i))
        },
{
    assert(ss.subrange(0, i + 1).drop_last() =~= ss.subrange(0, i));
}

/// The sessions of the process, at most one record per id.
pub struct SessionRegistry {
    sessions: Vec<BookSession>,
}

impl View for SessionRegistry {
    type V = Seq<BookSession>;

    closed spec fn view(&self) -> Seq<BookSession> {
        self.sessions@
    }
}

impl SessionRegistry {
    /// Every session is well formed and no two share an id.
    pub open spec fn wf(&self) -> bool {
        sessions_wf(self@)
    }

    pub fn new() -> (r: Self)
        ensures
            r.wf(),
            r@ == Seq::<BookSession>::empty(),
    {
        SessionRegistry { sessions: Vec::new() }
    }

    pub fn len(&self) -> (r: usize)
        ensures
            r == self@.len(),
    {
        self.sessions.len()
    }

    /// The position of the session with this id.
    pub fn find(&self, id: u128) -> (r: Option<usize>)
        requires
            self.wf(),
        ensures
            r matches Some(i) ==> i < self@.len() && self@[i as int].id == id,
            r is None <==> !has_id(self@, id),
    {
        let mut i: usize = 0;
        while i < self.sessions.len()
            invariant
                i <= self.sessions@.len(),
                self@ == self.sessions@,
                forall|j: int| 0 <= j < i ==> self.sessions@[j].id != id,
            decreases self.sessions@.len() - i,
        {
            if self.sessions[i].id == id {
                return Some(i);
            }
            i = i + 1;
        }
        None
    }

    /// The session with this id.
    pub fn get_session(&self, id: u128) -> (r: Option<&BookSession>)
        requires
            self.wf(),
        ensures
            r is None <==> !has_id(self@, id),
            r matches Some(s) ==> s.id == id && self@.contains(*s),
    {
        match self.find(id) {
            Some(i) => Some(&self.sessions[i]),
            None => None,
        }
    }

    /// The session at a position.
    pub fn session_at(&self, i: usize) -> (r: &BookSession)
        requires
            i < self@.len(),
        ensures
            *r == self@[i as int],
    {
        &self.sessions[i]
    }

    /// Registers a new session under `id`, created at `now`. Fails when the id
    /// is taken or the session cannot be created.
    pub fn create_session_with(
        &mut self,
        id: u128,
        now: i64,
        book_title: String,
        target: AppTarget,
        settings: CaptureSettings,
    ) -> (r: Result<u128, EngineError>)
        requires
            old(self).wf(),
        ensures
            final(self).wf(),
            has_id(old(self)@, id) ==> (final(self)@ == old(self)@ && (r matches Err(EngineError::DuplicateId(x)) && x == id)),
            !has_id(old(self)@, id) && !settings_valid(settings) ==> {
                &&& final(self)@ == old(self)@
                &&& r matches Err(EngineError::Validation(m)) && m@ == crate::settings::validation_message(settings)
            },
            !has_id(old(self)@, id) && settings_valid(settings) && !target.is_active ==> {
                &&& final(self)@ == old(self)@
                &&& r matches Err(EngineError::StaleTarget)
            },
            !has_id(old(self)@, id) && settings_valid(settings) && target.is_active ==> {
                &&& r == Ok::<u128, EngineError>(id)
                &&& final(self)@.len() == old(self)@.len() + 1
                &&& final(self)@.drop_last() == old(self)@
                &&& crate::session::fresh_session(final(self)@.last(), id, book_title, target, settings, now)
            },
    {
        if self.find(id).is_some() {
            return Err(EngineError::DuplicateId(id));
        }
        match BookSession::new(id, book_title, target, settings, now) {
            Err(e) => Err(e),
            Ok(s) => {
                let ghost before = self.sessions@;
                self.sessions.push(s);
                assert(self.sessions@.drop_last() =~= before);
                assert forall|i: int, j: int|
                    0 <= i < self@.len() && 0 <= j < self@.len() && i != j implies #[trigger] self@[i].id
                    != #[trigger] self@[j].id by {
                    if i < before.len() && j < before.len() {
                        assert(self@[i] == before[i] && self@[j] == before[j]);
                    } else if i < before.len() {
                        assert(self@[i] == before[i]);
                    } else {
                        assert(self@[j] == before[j]);
                    }
                }
                Ok(id)
            },
        }
    }
}

impl SessionRegistry {
    /// The ids of the sessions whose status matches, paginated.
    pub fn list_sessions(&self, limit: Option<u32>, offset: Option<u32>, status: Option<SessionStatus>) -> (r: Vec<u128>)
        ensures
            r@ == page_of(matching_ids(self@, status), limit, offset),
    {
        let mut all: Vec<u128> = Vec::new();
        let mut i: usize = 0;
        while i < self.sessions.len()
            invariant
                i <= self.sessions@.len(),
                self@ == self.sessions@,
                all@ == matching_ids(self@.subrange(0, i as int), status),
            decreases self.sessions@.len() - i,
        {
            proof { lemma_matching_step(self@, i as int, status); }
            let keep = match status {
                Some(st) => self.sessions[i].status == st,
                None => true,
            };
            if keep {
                all.push(self.sessions[i].id);
            }
            i = i + 1;
        }
        assert(self@.subrange(0, self@.len() as int) =~= self@);
        let n: usize = all.len();
        let start: usize = match offset {
            Some(o) => if (o as usize) <= n { o as usize } else { n },
            None => 0,
        };
        let end: usize = match limit {
            Some(l) => if (l as usize) <= n - start { start + l as usize } else { n },
            None => n,
        };
        let mut out: Vec<u128> = Vec::new();
        let mut k: usize = start;
        while k < end
            invariant
                start <= k <= end <= all@.len(),
                out@ == all@.subrange(start as int, k as int),
            decreases end - k,
        {
            out.push(all[k]);
            assert(all@.subrange(start as int, k + 1) =~= all@.subrange(start as int, k as int).push(all@[k as int]));
            k = k + 1;
        }
        out
    }

    fn window_taken(&self, i: usize) -> (r: bool)
        requires
            i < self@.len(),
        ensures
            r == window_busy(self@, i as int),
    {
        let w = self.sessions[i].target_app.window_id;
        let mut j: usize = 0;
        while j < self.sessions.len()
            invariant
                j <= self.sessions@.len(),
                self@ == self.sessions@,
                i < self@.len(),
                w == self@[i as int].target_app.window_id,
                forall|k: int|
                    0 <= k < j ==> !(k != i && (#[trigger] self@[k]).target_app.window_id == w && (self@[k].status is Capturing
                        || self@[k].status is Paused)),
            decreases self.sessions@.len() - j,
        {
            if j != i && self.sessions[j].target_app.window_id == w && self.sessions[j].is_active() {
                return true;
            }
            j = j + 1;
        }
        false
    }

    /// Starts capturing the session with this id. Refused when another
    /// active session drives the same window.
    pub fn start_capture(&mut self, id: u128, now: i64) -> (r: Result<SessionStatusEvent, EngineError>)
        requires
            old(self).wf(),
        ensures
            final(self).wf(),
            !has_id(old(self)@, id) ==> final(self)@ == old(self)@ && r == Err::<SessionStatusEvent, EngineError>(EngineError::NotFound(id)),
            forall|i: int| 0 <= i < old(self)@.len() && #[trigger] old(self)@[i].id == id ==> {
                let s = old(self)@[i];
                if (s.status is WaitingForStart || s.status is Paused) && window_busy(old(self)@, i) {
                    &&& final(self)@ == old(self)@
                    &&& r matches Err(EngineError::WindowBusy(w)) && w == s.target_app.window_id
                } else if s.status is WaitingForStart || s.status is Paused {
                    &&& final(self)@ == old(self)@.update(i, crate::session::moved(s, SessionStatus::Capturing))
                    &&& r == Ok::<SessionStatusEvent, EngineError>(crate::session::status_event(s, SessionStatus::Capturing, now))
                } else {
                    &&& final(self)@ == old(self)@
                    &&& r matches Err(EngineError::InvalidState(st)) && st == s.status
                }
            },
    {
        let i = match self.find(id) {
            Some(i) => i,
            None => return Err(EngineError::NotFound(id)),
        };
        if self.sessions[i].can_be_started() && self.window_taken(i) {
            return Err(EngineError::WindowBusy(self.sessions[i].target_app.window_id));
        }
        let ghost before = self.sessions@;
        let mut s = self.sessions.remove(i);
        let r = s.start(now);
        proof { lemma_replace(before, i as int, s); }
        self.sessions.insert(i, s);
        r
    }

    /// Pauses the session with this id.
    pub fn pause_capture(&mut self, id: u128, now: i64) -> (r: Result<SessionStatusEvent, EngineError>)
        requires
            old(self).wf(),
        ensures
            final(self).wf(),
            !has_id(old(self)@, id) ==> final(self)@ == old(self)@ && r == Err::<SessionStatusEvent, EngineError>(EngineError::NotFound(id)),
            forall|i: int| 0 <= i < old(self)@.len() && #[trigger] old(self)@[i].id == id ==> {
                let s = old(self)@[i];
                if s.status is Capturing {
                    &&& final(self)@ == old(self)@.update(i, crate::session::moved(s, SessionStatus::Paused))
                    &&& r == Ok::<SessionStatusEvent, EngineError>(crate::session::status_event(s, SessionStatus::Paused, now))
                } else {
                    &&& final(self)@ == old(self)@
                    &&& r matches Err(EngineError::InvalidState(st)) && st == s.status
                }
            },
    {
        let i = match self.find(id) {
            Some(i) => i,
            None => return Err(EngineError::NotFound(id)),
        };
        let ghost before = self.sessions@;
        let mut s = self.sessions.remove(i);
        let r = s.pause(now);
        proof { lemma_replace(before, i as int, s); }
        self.sessions.insert(i, s);
        r
    }

    /// Resumes the session with this id.
    pub fn resume_capture(&mut self, id: u128, now: i64) -> (r: Result<SessionStatusEvent, EngineError>)
        requires
            old(self).wf(),
        ensures
            final(self).wf(),
            !has_id(old(self)@, id) ==> final(self)@ == old(self)@ && r == Err::<SessionStatusEvent, EngineError>(EngineError::NotFound(id)),
            forall|i: int| 0 <= i < old(self)@.len() && #[trigger] old(self)@[i].id == id ==> {
                let s = old(self)@[i];
                if s.status is Paused {
                    &&& final(self)@ == old(self)@.update(i, crate::session::moved(s, SessionStatus::Capturing))
                    &&& r == Ok::<SessionStatusEvent, EngineError>(crate::session::status_event(s, SessionStatus::Capturing, now))
                } else {
                    &&& final(self)@ == old(self)@
                    &&& r matches Err(EngineError::InvalidState(st)) && st == s.status
                }
            },
    {
        let i = match self.find(id) {
            Some(i) => i,
            None => return Err(EngineError::NotFound(id)),
        };
        let ghost before = self.sessions@;
        let mut s = self.sessions.remove(i);
        let r = s.resume(now);
        proof { lemma_replace(before, i as int, s); }
        self.sessions.insert(i, s);
        r
    }

    /// Stops the session with this id; on a session that has ended, returns
    /// its summary and changes nothing.
    pub fn stop_capture(&mut self, id: u128, now: i64) -> (r: Result<SessionSummary, EngineError>)
        requires
            old(self).wf(),
        ensures
            final(self).wf(),
            !has_id(old(self)@, id) ==> final(self)@ == old(self)@ && r == Err::<SessionSummary, EngineError>(EngineError::NotFound(id)),
            forall|i: int| 0 <= i < old(self)@.len() && #[trigger] old(self)@[i].id == id ==> {
                let s = old(self)@[i];
                if s.status.spec_is_terminal() {
                    &&& final(self)@ == old(self)@
                    &&& r == Ok::<SessionSummary, EngineError>(s.session_summary->Some_0)
                } else if s.status is Capturing || s.status is Paused {
                    &&& final(self)@ == old(self)@.update(i, ended(s, SessionStatus::Cancelled, now))
                    &&& r == Ok::<SessionSummary, EngineError>(crate::session::summary_of(s, now))
                } else {
                    &&& final(self)@ == old(self)@
                    &&& r matches Err(EngineError::InvalidState(st)) && st == s.status
                }
            },
    {
        let i = match self.find(id) {
            Some(i) => i,
            None => return Err(EngineError::NotFound(id)),
        };
        let ghost before = self.sessions@;
        let mut s = self.sessions.remove(i);
        let r = s.stop(now);
        proof { lemma_replace(before, i as int, s); }
        self.sessions.insert(i, s);
        r
    }

    /// Applies a partial settings update to the session with this id.
    pub fn update_session(&mut self, id: u128, patch: SettingsPatch) -> (r: Result<(), EngineError>)
        requires
            old(self).wf(),
        ensures
            final(self).wf(),
            !has_id(old(self)@, id) ==> final(self)@ == old(self)@ && r == Err::<(), EngineError>(EngineError::NotFound(id)),
            forall|i: int| 0 <= i < old(self)@.len() && #[trigger] old(self)@[i].id == id ==> {
                let s = old(self)@[i];
                let p = crate::settings::patched(s.settings, patch);
                if s.status is Capturing {
                    &&& final(self)@ == old(self)@
                    &&& r matches Err(EngineError::Validation(m)) && m@ == crate::session::capturing_update_message()
                } else if !settings_valid(p) {
                    &&& final(self)@ == old(self)@
                    &&& r matches Err(EngineError::Validation(m)) && m@ == crate::settings::validation_message(p)
                } else {
                    &&& final(self)@ == old(self)@.update(i, BookSession { settings: p, page_attempts: 0, ..s })
                    &&& r is Ok
                }
            },
    {
        let i = match self.find(id) {
            Some(i) => i,
            None => return Err(EngineError::NotFound(id)),
        };
        let ghost before = self.sessions@;
        let mut s = self.sessions.remove(i);
        let r = s.update_settings(patch);
        proof { lemma_replace(before, i as int, s); }
        self.sessions.insert(i, s);
        r
    }

    /// Removes a session that has ended and hands it back, so that its
    /// files can be deleted too.
    pub fn delete_session(&mut self, id: u128) -> (r: Result<BookSession, EngineError>)
        requires
            old(self).wf(),
        ensures
            final(self).wf(),
            !has_id(old(self)@, id) ==> final(self)@ == old(self)@ && r == Err::<BookSession, EngineError>(EngineError::NotFound(id)),
            forall|i: int| 0 <= i < old(self)@.len() && #[trigger] old(self)@[i].id == id ==> {
                let s = old(self)@[i];
                if s.status.spec_is_terminal() {
                    &&& final(self)@ == old(self)@.remove(i)
                    &&& r == Ok::<BookSession, EngineError>(s)
                } else {
                    &&& final(self)@ == old(self)@
                    &&& r matches Err(EngineError::InvalidState(st)) && st == s.status
                }
            },
    {
        let i = match self.find(id) {
            Some(i) => i,
            None => return Err(EngineError::NotFound(id)),
        };
        if !self.sessions[i].status.is_terminal() {
            return Err(EngineError::InvalidState(self.sessions[i].status));
        }
        proof { lemma_remove(self.sessions@, i as int); }
        Ok(self.sessions.remove(i))
    }

    /// Hands one loop input to the session with this id.
    pub fn apply_step(&mut self, id: u128, input: LoopInput, now: i64) -> (r: Result<StepOutcome, EngineError>)
        requires
            old(self).wf(),
        ensures
            final(self).wf(),
            !has_id(old(self)@, id) ==> (final(self)@ == old(self)@ && (r matches Err(EngineError::NotFound(x)) && x == id)),
            forall|i: int| 0 <= i < old(self)@.len() && #[trigger] old(self)@[i].id == id ==> {
                &&& final(self)@ == old(self)@.update(i, final(self)@[i])
                &&& step_ok(old(self)@[i], final(self)@[i])
                &&& r matches Ok(out) && step_spec(old(self)@[i], input, now, out, final(self)@[i])
            },
    {
        let i = match self.find(id) {
            Some(i) => i,
            None => return Err(EngineError::NotFound(id)),
        };
        let ghost before = self.sessions@;
        let mut s = self.sessions.remove(i);
        let r = s.step(input, now);
        proof { lemma_replace(before, i as int, s); }
        self.sessions.insert(i, s);
        Ok(r)
    }

    /// The emergency stop at `now`: every session that has not ended is
    /// cancelled with its summary; the ids of those sessions are returned in
    /// registry order.
    pub fn emergency_stop(&mut self, now: i64) -> (r: Vec<u128>)
        requires
            old(self).wf(),
        ensures
            final(self).wf(),
            final(self)@.len() == old(self)@.len(),
            forall|i: int| 0 <= i < old(self)@.len() ==> #[trigger] final(self)@[i] == stopped(old(self)@[i], now),
            forall|i: int| 0 <= i < old(self)@.len() ==> (#[trigger] final(self)@[i]).status.spec_is_terminal(),
            r@ == live_ids(old(self)@),
    {
        let ghost start = self.sessions@;
        let mut ids: Vec<u128> = Vec::new();
        let mut i: usize = 0;
        while i < self.sessions.len()
            invariant
                i <= self.sessions@.len(),
                self.sessions@.len() == start.len(),
                sessions_wf(self.sessions@),
                forall|j: int| 0 <= j < i ==> #[trigger] self.sessions@[j] == stopped(start[j], now),
                forall|j: int| i <= j < start.len() ==> #[trigger] self.sessions@[j] == start[j],
                ids@ == live_ids(start.subrange(0, i as int)),
            decreases start.len() - i,
        {
            proof { lemma_live_step(start, i as int); }
            let ghost before = self.sessions@;
            let mut s = self.sessions.remove(i);
            let stopped_now = s.cancel(now);
            if stopped_now.is_some() {
                ids.push(s.id);
            }
            proof { lemma_replace(before, i as int, s); }
            self.sessions.insert(i, s);
            i = i + 1;
        }
        assert(start.subrange(0, start.len() as int) =~= start);
        ids
    }
}

impl SessionRegistry {
    /// The exported entries of a session's screenshots, paginated.
    pub fn get_screenshots(&self, id: u128, limit: Option<u32>, offset: Option<u32>) -> (r: Result<
        Vec<ExportEntry>,
        EngineError,
    >)
        requires
            self.wf(),
        ensures
            !has_id(self@, id) ==> (r matches Err(EngineError::NotFound(x)) && x == id),
            forall|i: int| 0 <= i < self@.len() && #[trigger] self@[i].id == id ==> (r matches Ok(v) && v@ == page_of(
                self@[i].screenshots@.map_values(|x: Screenshot| entry_of(x)),
                limit,
                offset,
            )),
    {
        let i = match self.find(id) {
            Some(i) => i,
            None => return Err(EngineError::NotFound(id)),
        };
        let mut all = self.sessions[i].export_screenshots();
        let n: usize = all.len();
        let start: usize = match offset {
            Some(o) => if (o as usize) <= n { o as usize } else { n },
            None => 0,
        };
        let end: usize = match limit {
            Some(l) => if (l as usize) <= n - start { start + l as usize } else { n },
            None => n,
        };
        let ghost whole = all@;
        all.truncate(end);
        let tail = all.split_off(start);
        assert(tail@ =~= whole.subrange(start as int, end as int));
        Ok(tail)
    }
}

} // verus!
