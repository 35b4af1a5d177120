//! Replay of a session's history: elapsed running time, the live state, and
//! the status of the latest session with its auto-completion.
use vstd::prelude::*;

use crate::clock::{new_id, now_micros};
use crate::model::{Session, SessionEvent, SessionEventKind, MICROS_PER_SEC};
use crate::store::{
    page, InsertSessionEventArgs, ListSessionEventsArgs, Log, Querier, StoreError,
};

verus! {

broadcast use vstd::string::group_string_axioms;

/// Whether event times never go back along `events`.
pub open spec fn chronological(events: Seq<SessionEvent>) -> bool {
    forall|i: int, j: int| 0 <= i < j < events.len() ==> events[i].created_at <= events[j].created_at
}

/// Walk `events` oldest first: a `Started` or `Resumed` event opens a segment
/// at its time; any other event closes the open segment, adding its length.
/// The result is the summed length of the closed segments and the start of
/// the segment still open, if any.
pub open spec fn replay_closed(events: Seq<SessionEvent>) -> (int, Option<int>)
    decreases events.len(),
{
    if events.len() == 0 {
        (0, None)
    } else {
        let (elapsed, open) = replay_closed(events.drop_last());
        let e = events.last();
        if e.kind.opens_segment() {
            (elapsed, Some(e.created_at as int))
        } else {
            match open {
                Some(start) => (elapsed + (e.created_at - start), None),
                None => (elapsed, None),
            }
        }
    }
}

/// Running time in microseconds of a session with history `events` (oldest
/// first) at time `now`: the closed segments, plus the open one up to `now`.
pub open spec fn elapsed_micros(events: Seq<SessionEvent>, now: int) -> int {
    let (elapsed, open) = replay_closed(events);
    match open {
        Some(start) => elapsed + (now - start),
        None => elapsed,
    }
}

/// Whole seconds in `micros`, truncated, and never below zero.
pub open spec fn whole_secs(micros: int) -> int {
    if micros <= 0 {
        0
    } else {
        micros / (MICROS_PER_SEC as int)
    }
}

/// Seconds left of `planned` after `elapsed`, never below zero.
pub open spec fn remaining(planned: int, elapsed: int) -> int {
    if planned > elapsed {
        planned - elapsed
    } else {
        0
    }
}

/// Total running time in microseconds of a session whose events are `events`,
/// oldest first, evaluated at `now`.
pub fn replay(events: &Vec<SessionEvent>, now: i64) -> (r: i128)
    requires
        chronological(events@),
    ensures
        r == elapsed_micros(events@, now as int),
        -0x1_0000_0000_0000_0000 < r < 0x2_0000_0000_0000_0000,
{
    let n = events.len();
    let mut elapsed: i128 = 0;
    let mut open: Option<i64> = None;
    let mut i: usize = 0;
    while i < n
        invariant
            n == events@.len(),
            i <= n,
            chronological(events@),
            replay_closed(events@.take(i as int)) == (
                elapsed as int,
                match open {
                    Some(s) => Some(s as int),
                    None => None::<int>,
                },
            ),
            0 <= elapsed,
            i == 0 ==> elapsed == 0 && open.is_none(),
            i > 0 ==> match open {
                Some(s) => {
                    &&& events@[0].created_at <= s <= events@[i - 1].created_at
                    &&& elapsed <= s - events@[0].created_at
                },
                None => elapsed <= events@[i - 1].created_at - events@[0].created_at,
            },
        decreases n - i,
    {
        let e = events[i];
        proof {
            let t = events@.take(i + 1);
            assert(t.drop_last() =~= events@.take(i as int));
            assert(t.last() == e);
            if i > 0 {
                assert(events@[i - 1].created_at <= e.created_at);
                assert(events@[0].created_at <= e.created_at);
            }
        }
        if e.kind.is_start() {
            open = Some(e.created_at);
        } else {
            match open {
                Some(start) => {
                    elapsed = elapsed + (e.created_at as i128 - start as i128);
                    open = None;
                },
                None => {},
            }
        }
        i = i + 1;
    }
    assert(events@.take(n as int) =~= events@);
    match open {
        Some(start) => elapsed + (now as i128 - start as i128),
        None => elapsed,
    }
}

/// The lifecycle state of the latest session.
#[derive(Clone, Copy, Debug, PartialEq, Eq, Structural)]
pub enum SessionState {
    /// No session exists yet.
    NoSession,
    /// The session is counting down.
    Running,
    /// The session was paused.
    Paused,
    /// The session reached its planned duration.
    Completed,
    /// The session was cancelled.
    Aborted,
}

/// The state that an event of kind `kind` leaves its session in.
pub open spec fn state_after(kind: SessionEventKind) -> SessionState {
    match kind {
        SessionEventKind::Started => SessionState::Running,
        SessionEventKind::Resumed => SessionState::Running,
        SessionEventKind::Paused => SessionState::Paused,
        SessionEventKind::Completed => SessionState::Completed,
        SessionEventKind::Aborted => SessionState::Aborted,
    }
}

impl SessionState {
    /// The state that an event of kind `kind` leaves its session in.
    pub fn from(kind: &SessionEventKind) -> (r: SessionState)
        ensures
            r == state_after(*kind),
    {
        match kind {
            SessionEventKind::Started | SessionEventKind::Resumed => SessionState::Running,
            SessionEventKind::Paused => SessionState::Paused,
            SessionEventKind::Completed => SessionState::Completed,
            SessionEventKind::Aborted => SessionState::Aborted,
        }
    }

    /// The state's name in rendered output.
    pub open spec fn name(self) -> Seq<char> {
        match self {
            SessionState::NoSession => "none"@,
            SessionState::Running => "running"@,
            SessionState::Paused => "paused"@,
            SessionState::Completed => "completed"@,
            SessionState::Aborted => "aborted"@,
        }
    }

    /// The state's name in rendered output.
    pub fn as_str(&self) -> (r: &'static str)
        ensures
            r@ == self.name(),
    {
        match self {
            SessionState::NoSession => "none",
            SessionState::Running => "running",
            SessionState::Paused => "paused",
            SessionState::Completed => "completed",
            SessionState::Aborted => "aborted",
        }
    }
}

impl Default for SessionState {
    /// No session.
    fn default() -> (r: SessionState)
        ensures
            r == SessionState::NoSession,
    {
        SessionState::NoSession
    }
}

/// The figures that `status` renders.
#[derive(Clone, Debug)]
pub struct SessionStatus {
    /// `"focus"`, `"break"`, or `"none"` when there is no session.
    pub kind: String,
    /// The lifecycle state.
    pub state: SessionState,
    /// Planned length in seconds.
    pub planned_secs: i64,
    /// Running time so far in whole seconds.
    pub elapsed_secs: i64,
    /// Seconds left, never below zero.
    pub remaining_secs: i64,
}

/// The content of a `SessionStatus`.
pub struct StatusView {
    /// The kind's name.
    pub kind: Seq<char>,
    /// The lifecycle state.
    pub state: SessionState,
    /// Planned length in seconds.
    pub planned_secs: int,
    /// Running time in whole seconds.
    pub elapsed_secs: int,
    /// Seconds left.
    pub remaining_secs: int,
}

impl View for SessionStatus {
    type V = StatusView;

    open spec fn view(&self) -> StatusView {
        StatusView {
            kind: self.kind@,
            state: self.state,
            planned_secs: self.planned_secs as int,
            elapsed_secs: self.elapsed_secs as int,
            remaining_secs: self.remaining_secs as int,
        }
    }
}

impl Default for SessionStatus {
    /// The status when no session exists: kind and state "none", all figures zero.
    fn default() -> (r: SessionStatus)
        ensures
            r@ == empty_status(),
    {
        SessionStatus {
            kind: String::from_str("none"),
            state: SessionState::NoSession,
            planned_secs: 0,
            elapsed_secs: 0,
            remaining_secs: 0,
        }
    }
}

/// The status when no session exists.
pub open spec fn empty_status() -> StatusView {
    StatusView {
        kind: "none"@,
        state: SessionState::NoSession,
        planned_secs: 0,
        elapsed_secs: 0,
        remaining_secs: 0,
    }
}

/// The status of session `s` whose history, newest first, is `newest`, at
/// time `now` (before any auto-completion).
pub open spec fn status_of(s: Session, newest: Seq<SessionEvent>, now: int) -> StatusView {
    let elapsed = whole_secs(elapsed_micros(newest.reverse(), now));
    StatusView {
        kind: s.kind.name(),
        state: if newest.len() == 0 {
            SessionState::NoSession
        } else {
            state_after(newest[0].kind)
        },
        planned_secs: s.planned_secs as int,
        elapsed_secs: elapsed,
        remaining_secs: remaining(s.planned_secs as int, elapsed),
    }
}

/// Compute the status of session `s` from its history `newest` (newest first)
/// at time `now`.
pub fn assemble_status(s: &Session, newest: &Vec<SessionEvent>, now: i64) -> (r: SessionStatus)
    requires
        chronological(newest@.reverse()),
    ensures
        r@ == status_of(*s, newest@, now as int),
{
    let n = newest.len();
    let mut chrono: Vec<SessionEvent> = Vec::new();
    let mut i: usize = n;
    while i > 0
        invariant
            n == newest@.len(),
            i <= n,
            chrono@.len() == n - i,
            forall|k: int| 0 <= k < chrono@.len() ==> chrono@[k] == newest@[n - 1 - k],
        decreases i,
    {
        i = i - 1;
        chrono.push(newest[i]);
    }
    assert(chrono@ =~= newest@.reverse());
    let micros = replay(&chrono, now);
    let elapsed: i64 = if micros <= 0 {
        0
    } else {
        (micros / (MICROS_PER_SEC as i128)) as i64
    };
    let left: i64 = if s.planned_secs > elapsed {
        s.planned_secs - elapsed
    } else {
        0
    };
    let state = if n == 0 {
        SessionState::NoSession
    } else {
        SessionState::from(&newest[0].kind)
    };
    SessionStatus {
        kind: s.kind.to_string(),
        state,
        planned_secs: s.planned_secs,
        elapsed_secs: elapsed,
        remaining_secs: left,
    }
}

/// The result of `status`: the figures, the latest session, and the
/// `Completed` event recorded by auto-completion, if any.
#[derive(Clone, Debug)]
pub struct StatusReport {
    /// The figures to render.
    pub status: SessionStatus,
    /// The latest session, when there is one.
    pub session: Option<Session>,
    /// The `Completed` event recorded by this call, when there is one.
    pub event: Option<SessionEvent>,
}

/// The content of a `StatusReport`.
pub struct StatusReportView {
    /// The figures.
    pub status: StatusView,
    /// The latest session.
    pub session: Option<Session>,
    /// The recorded event.
    pub event: Option<SessionEvent>,
}

impl View for StatusReport {
    type V = StatusReportView;

    open spec fn view(&self) -> StatusReportView {
        StatusReportView { status: self.status@, session: self.session, event: self.event }
    }
}

/// The content of a `status` result.
pub open spec fn report_view(r: Result<StatusReport, StoreError>) -> Result<
    StatusReportView,
    StoreError,
> {
    match r {
        Ok(rep) => Ok(rep@),
        Err(e) => Err(e),
    }
}

/// The history of session `id` that `status` replays, newest first.
pub open spec fn session_history(log: Log, id: u128) -> Seq<SessionEvent> {
    page(log.events_newest_first(Some(id)), None, Some(u32::MAX))
}

/// What `status` reports and leaves in the store, given a fresh identifier and
/// the time: the status of the latest session; when that session is running
/// with no time left, a `Completed` event is recorded and reported.
pub open spec fn status_step(log: Log, event_id: u128, now: i64) -> (
    Result<StatusReportView, StoreError>,
    Log,
) {
    match log.latest_session() {
        None => (Ok(StatusReportView { status: empty_status(), session: None, event: None }), log),
        Some(s) => {
            let st = status_of(s, session_history(log, s.id), now as int);
            if st.state == SessionState::Running && st.remaining_secs == 0 {
                let e = SessionEvent {
                    id: event_id,
                    kind: SessionEventKind::Completed,
                    session_id: s.id,
                    created_at: now,
                };
                if log.event_in_order(e) {
                    (
                        Ok(
                            StatusReportView {
                                status: StatusView {
                                    kind: st.kind,
                                    state: SessionState::Completed,
                                    planned_secs: st.planned_secs,
                                    elapsed_secs: st.elapsed_secs,
                                    remaining_secs: st.remaining_secs,
                                },
                                session: Some(s),
                                event: Some(e),
                            },
                        ),
                        log.add_event(e),
                    )
                } else {
                    (Err(StoreError::OutOfOrder), log)
                }
            } else {
                (Ok(StatusReportView { status: st, session: Some(s), event: None }), log)
            }
        },
    }
}

/// `status`: replay the latest session's history and complete it when its
/// time is up.
pub struct StatusCommand {
    /// The store the command reads and writes.
    pub querier: Querier,
}

impl StatusCommand {
    /// Run `status` at time `now`, with the given identifier for a
    /// `Completed` event.
    pub fn execute_at(&mut self, event_id: u128, now: i64) -> (r: Result<StatusReport, StoreError>)
        ensures
            final(self).querier@.wf(),
            (report_view(r), final(self).querier@) == status_step(
                old(self).querier@,
                event_id,
                now,
            ),
    {
        proof {
            use_type_invariant(&self.querier);
        }
        match self.querier.latest_session() {
            None => Ok(StatusReport { status: SessionStatus::default(), session: None, event: None }),
            Some(s) => {
                let newest = self.querier.list_session_events(
                    &ListSessionEventsArgs::with_session_id(s.id),
                );
                proof {
                    let rev = newest@.reverse();
                    assert forall|a: int, b: int| 0 <= a < b < rev.len() implies rev[a].created_at
                        <= rev[b].created_at by {
                        assert(rev[a] == newest@[newest@.len() - 1 - a]);
                        assert(rev[b] == newest@[newest@.len() - 1 - b]);
                    }
                }
                let mut status = assemble_status(&s, &newest, now);
                if status.state == SessionState::Running && status.remaining_secs == 0 {
                    let e = SessionEvent {
                        id: event_id,
                        kind: SessionEventKind::Completed,
                        session_id: s.id,
                        created_at: now,
                    };
                    if !self.querier.event_in_order(&e) {
                        return Err(StoreError::OutOfOrder);
                    }
                    proof {
                        let log = self.querier@;
                        assert(log.sessions[log.sessions.len() - 1].id == s.id);
                        assert(log.has_session(s.id));
                    }
                    if let Err(err) = self.querier.insert_session_event(&InsertSessionEventArgs { session_event: &e }) {
                        return Err(err);
                    }
                    status.state = SessionState::Completed;
                    Ok(StatusReport { status, session: Some(s), event: Some(e) })
                } else {
                    Ok(StatusReport { status, session: Some(s), event: None })
                }
            },
        }
    }

    /// Run `status` now, with a fresh identifier.
    pub fn execute(&mut self) -> (r: Result<StatusReport, StoreError>)
        ensures
            final(self).querier@.wf(),
            exists|event_id: u128, now: i64|
                (report_view(r), final(self).querier@) == status_step(
                    old(self).querier@,
                    event_id,
                    now,
                ),
    {
        proof {
            use_type_invariant(&self.querier);
        }
        let event_id = new_id();
        let now = now_micros();
        self.execute_at(event_id, now)
    }
}

} // verus!
