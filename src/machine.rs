//! The session state machine: what `start` and `stop` do, decided by the most
//! recent event across all sessions.
use vstd::prelude::*;

use crate::clock::{new_id, now_micros};
use crate::config::{StartCommandArgs, StopCommandArgs};
use crate::model::{Session, SessionEvent, SessionEventKind, SessionKind};
use crate::store::{
    GetSessionByIdArgs, InsertSessionArgs, InsertSessionEventArgs, Log, Querier, StoreError,
};

verus! {

broadcast use vstd::string::group_string_axioms;

/// What a command does to the event log.
#[derive(Clone, Copy, Debug, PartialEq, Eq, Structural)]
pub enum Effect {
    /// Create a session and record its `Started` event.
    NewSession,
    /// Record an event of this kind against the latest event's session.
    Append(SessionEventKind),
    /// Leave the log as it is.
    Nothing,
}

/// The transition table of `start`, by the kind of the latest event.
pub open spec fn start_effect(latest: Option<SessionEventKind>) -> Effect {
    match latest {
        None => Effect::NewSession,
        Some(k) => match k {
            SessionEventKind::Started => Effect::Nothing,
            SessionEventKind::Resumed => Effect::Nothing,
            SessionEventKind::Paused => Effect::Append(SessionEventKind::Resumed),
            SessionEventKind::Aborted => Effect::NewSession,
            SessionEventKind::Completed => Effect::NewSession,
        },
    }
}

/// The transition table of `stop`, by the kind of the latest event.
pub open spec fn stop_effect(latest: Option<SessionEventKind>, reset: bool) -> Effect {
    match latest {
        None => Effect::Nothing,
        Some(k) => match k {
            SessionEventKind::Started => Effect::Append(
                if reset {
                    SessionEventKind::Aborted
                } else {
                    SessionEventKind::Paused
                },
            ),
            SessionEventKind::Resumed => Effect::Append(
                if reset {
                    SessionEventKind::Aborted
                } else {
                    SessionEventKind::Paused
                },
            ),
            SessionEventKind::Paused => if reset {
                Effect::Append(SessionEventKind::Aborted)
            } else {
                Effect::Nothing
            },
            SessionEventKind::Aborted => Effect::Nothing,
            SessionEventKind::Completed => Effect::Nothing,
        },
    }
}

/// The kind of the most recent event of the log.
pub open spec fn latest_kind(log: Log) -> Option<SessionEventKind> {
    match log.latest_event() {
        None => None,
        Some(e) => Some(e.kind),
    }
}

/// What a command reports to its user.
#[derive(Clone, Copy, Debug, PartialEq, Eq, Structural)]
pub enum Outcome {
    /// A new session of this kind was started.
    Started(SessionKind),
    /// The session of this kind is already running; nothing was recorded.
    AlreadyRunning(SessionKind),
    /// The paused session of this kind runs again.
    Resumed(SessionKind),
    /// The running session of this kind was paused.
    Paused(SessionKind),
    /// The session of this kind was aborted.
    Aborted(SessionKind),
    /// The session of this kind is already paused; nothing was recorded.
    AlreadyPaused(SessionKind),
    /// The latest session, of this kind, has ended; nothing was recorded.
    NotActive(SessionKind),
    /// No event exists at all; nothing was recorded.
    NoActiveSession,
}

impl Outcome {
    /// The message shown to the user.
    pub open spec fn text(self) -> Seq<char> {
        match self {
            Outcome::Started(k) => "Started a new "@ + k.name() + " session."@,
            Outcome::AlreadyRunning(k) => "A "@ + k.name() + " session is already running."@,
            Outcome::Resumed(k) => "Resumed the "@ + k.name() + " session."@,
            Outcome::Paused(k) => "Paused the "@ + k.name() + " session."@,
            Outcome::Aborted(k) => "Aborted the "@ + k.name() + " session."@,
            Outcome::AlreadyPaused(k) => "The "@ + k.name() + " session is already paused."@,
            Outcome::NotActive(k) => "No active "@ + k.name() + " session to stop."@,
            Outcome::NoActiveSession => "No active session found."@,
        }
    }

    /// The message shown to the user.
    pub fn message(&self) -> (r: String)
        ensures
            r@ == self.text(),
    {
        match self {
            Outcome::Started(k) => String::from_str("Started a new ").concat(k.as_str()).concat(
                " session.",
            ),
            Outcome::AlreadyRunning(k) => String::from_str("A ").concat(k.as_str()).concat(
                " session is already running.",
            ),
            Outcome::Resumed(k) => String::from_str("Resumed the ").concat(k.as_str()).concat(
                " session.",
            ),
            Outcome::Paused(k) => String::from_str("Paused the ").concat(k.as_str()).concat(
                " session.",
            ),
            Outcome::Aborted(k) => String::from_str("Aborted the ").concat(k.as_str()).concat(
                " session.",
            ),
            Outcome::AlreadyPaused(k) => String::from_str("The ").concat(k.as_str()).concat(
                " session is already paused.",
            ),
            Outcome::NotActive(k) => String::from_str("No active ").concat(k.as_str()).concat(
                " session to stop.",
            ),
            Outcome::NoActiveSession => String::from_str("No active session found."),
        }
    }
}

/// The result of `start` or `stop`: the message, the session concerned, and
/// the event recorded, if any (to be handed to the hooks).
#[derive(Clone, Copy, Debug, PartialEq, Eq, Structural)]
pub struct CommandReport {
    /// What happened.
    pub outcome: Outcome,
    /// The session concerned, when there is one.
    pub session: Option<Session>,
    /// The event recorded, when one was.
    pub event: Option<SessionEvent>,
}

/// The session that `start` creates from `args`.
pub open spec fn new_session(args: StartCommandArgs, session_id: u128, now: i64) -> Session {
    Session {
        id: session_id,
        kind: args.mode.spec_kind(),
        planned_secs: args.spec_planned_secs(),
        created_at: now,
    }
}

/// Create a session from `args` and record its `Started` event, if both fit
/// the store's order.
pub open spec fn open_session(
    log: Log,
    args: StartCommandArgs,
    session_id: u128,
    event_id: u128,
    now: i64,
) -> (Result<CommandReport, StoreError>, Log) {
    let s = new_session(args, session_id, now);
    let e = SessionEvent {
        id: event_id,
        kind: SessionEventKind::Started,
        session_id,
        created_at: now,
    };
    if log.session_fits(s) && log.event_in_order(e) {
        (
            Ok(CommandReport { outcome: Outcome::Started(s.kind), session: Some(s), event: Some(e) }),
            log.add_session(s).add_event(e),
        )
    } else {
        (Err(StoreError::OutOfOrder), log)
    }
}

/// Record `e` against session `s`, if it fits the store's order.
pub open spec fn record(log: Log, outcome: Outcome, s: Session, e: SessionEvent) -> (
    Result<CommandReport, StoreError>,
    Log,
) {
    if log.event_in_order(e) {
        (Ok(CommandReport { outcome, session: Some(s), event: Some(e) }), log.add_event(e))
    } else {
        (Err(StoreError::OutOfOrder), log)
    }
}

/// Report `outcome` for session `s` and leave the log as it is.
pub open spec fn unchanged(log: Log, outcome: Outcome, s: Session) -> (
    Result<CommandReport, StoreError>,
    Log,
) {
    (Ok(CommandReport { outcome, session: Some(s), event: None }), log)
}

/// The event of `kind` for the session of `last`, with the given identity and time.
pub open spec fn follow_up(last: SessionEvent, kind: SessionEventKind, event_id: u128, now: i64) -> SessionEvent {
    SessionEvent { id: event_id, kind, session_id: last.session_id, created_at: now }
}

/// What `start` reports and leaves in the store, given fresh identifiers and
/// the time.
pub open spec fn start_step(
    log: Log,
    args: StartCommandArgs,
    session_id: u128,
    event_id: u128,
    now: i64,
) -> (Result<CommandReport, StoreError>, Log) {
    match log.latest_event() {
        None => open_session(log, args, session_id, event_id, now),
        Some(last) => {
            let s = log.session_with(last.session_id);
            match last.kind {
                SessionEventKind::Started => unchanged(log, Outcome::AlreadyRunning(s.kind), s),
                SessionEventKind::Resumed => unchanged(log, Outcome::AlreadyRunning(s.kind), s),
                SessionEventKind::Paused => record(
                    log,
                    Outcome::Resumed(s.kind),
                    s,
                    follow_up(last, SessionEventKind::Resumed, event_id, now),
                ),
                SessionEventKind::Aborted => open_session(log, args, session_id, event_id, now),
                SessionEventKind::Completed => open_session(log, args, session_id, event_id, now),
            }
        },
    }
}

/// What `stop` reports and leaves in the store, given a fresh identifier and
/// the time.
pub open spec fn stop_step(log: Log, args: StopCommandArgs, event_id: u128, now: i64) -> (
    Result<CommandReport, StoreError>,
    Log,
) {
    match log.latest_event() {
        None => (
            Ok(CommandReport { outcome: Outcome::NoActiveSession, session: None, event: None }),
            log,
        ),
        Some(last) => {
            let s = log.session_with(last.session_id);
            let abort = record(
                log,
                Outcome::Aborted(s.kind),
                s,
                follow_up(last, SessionEventKind::Aborted, event_id, now),
            );
            let pause = record(
                log,
                Outcome::Paused(s.kind),
                s,
                follow_up(last, SessionEventKind::Paused, event_id, now),
            );
            match last.kind {
                SessionEventKind::Started => if args.reset {
                    abort
                } else {
                    pause
                },
                SessionEventKind::Resumed => if args.reset {
                    abort
                } else {
                    pause
                },
                SessionEventKind::Paused => if args.reset {
                    abort
                } else {
                    unchanged(log, Outcome::AlreadyPaused(s.kind), s)
                },
                SessionEventKind::Aborted => unchanged(log, Outcome::NotActive(s.kind), s),
                SessionEventKind::Completed => unchanged(log, Outcome::NotActive(s.kind), s),
            }
        },
    }
}

/// Record `e` against session `s` in `q`, if it fits the store's order.
fn record_event(q: &mut Querier, outcome: Outcome, s: Session, e: SessionEvent) -> (r: Result<
    CommandReport,
    StoreError,
>)
    requires
        old(q)@.wf(),
        old(q)@.has_session(e.session_id),
    ensures
        final(q)@.wf(),
        (r, final(q)@) == record(old(q)@, outcome, s, e),
{
    if !q.event_in_order(&e) {
        return Err(StoreError::OutOfOrder);
    }
    match q.insert_session_event(&InsertSessionEventArgs { session_event: &e }) {
        Ok(_) => Ok(CommandReport { outcome, session: Some(s), event: Some(e) }),
        Err(err) => Err(err),
    }
}

/// Create a session from `args` in `q` and record its `Started` event, if
/// both fit the store's order.
fn begin_session(
    q: &mut Querier,
    args: &StartCommandArgs,
    session_id: u128,
    event_id: u128,
    now: i64,
) -> (r: Result<CommandReport, StoreError>)
    requires
        old(q)@.wf(),
    ensures
        final(q)@.wf(),
        (r, final(q)@) == open_session(old(q)@, *args, session_id, event_id, now),
{
    let s = Session {
        id: session_id,
        kind: args.mode.kind(),
        planned_secs: args.planned_secs(),
        created_at: now,
    };
    let e = SessionEvent {
        id: event_id,
        kind: SessionEventKind::Started,
        session_id,
        created_at: now,
    };
    if !(q.session_fits(&s) && q.event_in_order(&e)) {
        return Err(StoreError::OutOfOrder);
    }
    if let Err(err) = q.insert_session(&InsertSessionArgs { session: &s }) {
        return Err(err);
    }
    proof {
        let log = q@;
        assert(log.sessions[log.sessions.len() - 1].id == session_id);
        assert(log.has_session(session_id));
    }
    match q.insert_session_event(&InsertSessionEventArgs { session_event: &e }) {
        Ok(_) => Ok(CommandReport { outcome: Outcome::Started(s.kind), session: Some(s), event: Some(e) }),
        Err(err) => Err(err),
    }
}

/// `start`: begin a new session, resume a paused one, or leave a running one
/// alone, by the transition table.
pub struct StartCommand {
    /// The store the command reads and writes.
    pub querier: Querier,
}

impl StartCommand {
    /// Run `start` with the given identifiers for a new session and a new
    /// event, at time `now`.
    pub fn execute_at(
        &mut self,
        args: &StartCommandArgs,
        session_id: u128,
        event_id: u128,
        now: i64,
    ) -> (r: Result<CommandReport, StoreError>)
        ensures
            final(self).querier@.wf(),
            (r, final(self).querier@) == start_step(
                old(self).querier@,
                *args,
                session_id,
                event_id,
                now,
            ),
    {
        proof {
            use_type_invariant(&self.querier);
        }
        match self.querier.latest_event() {
            None => begin_session(&mut self.querier, args, session_id, event_id, now),
            Some(last) => {
                proof {
                    crate::store::lemma_latest_session_stored(self.querier@);
                }
                let s = match self.querier.get_session_by_id(&GetSessionByIdArgs { session_id: &last.session_id }) {
                    Ok(s) => s,
                    Err(err) => return Err(err),
                };
                match last.kind {
                    SessionEventKind::Started | SessionEventKind::Resumed => Ok(
                        CommandReport {
                            outcome: Outcome::AlreadyRunning(s.kind),
                            session: Some(s),
                            event: None,
                        },
                    ),
                    SessionEventKind::Paused => {
                        let e = SessionEvent {
                            id: event_id,
                            kind: SessionEventKind::Resumed,
                            session_id: last.session_id,
                            created_at: now,
                        };
                        record_event(&mut self.querier, Outcome::Resumed(s.kind), s, e)
                    },
                    SessionEventKind::Aborted | SessionEventKind::Completed => begin_session(
                        &mut self.querier,
                        args,
                        session_id,
                        event_id,
                        now,
                    ),
                }
            },
        }
    }

    /// Run `start` now, with fresh identifiers.
    pub fn execute(&mut self, args: &StartCommandArgs) -> (r: Result<CommandReport, StoreError>)
        ensures
            final(self).querier@.wf(),
            exists|session_id: u128, event_id: u128, now: i64|
                (r, final(self).querier@) == start_step(
                    old(self).querier@,
                    *args,
                    session_id,
                    event_id,
                    now,
                ),
    {
        proof {
            use_type_invariant(&self.querier);
        }
        let session_id = new_id();
        let event_id = new_id();
        let now = now_micros();
        self.execute_at(args, session_id, event_id, now)
    }
}

/// `stop`: pause or abort the live session, by the transition table.
pub struct StopCommand {
    /// The store the command reads and writes.
    pub querier: Querier,
}

impl StopCommand {
    /// Run `stop` with the given identifier for a new event, at time `now`.
    pub fn execute_at(&mut self, args: &StopCommandArgs, event_id: u128, now: i64) -> (r: Result<
        CommandReport,
        StoreError,
    >)
        ensures
            final(self).querier@.wf(),
            (r, final(self).querier@) == stop_step(old(self).querier@, *args, event_id, now),
    {
        proof {
            use_type_invariant(&self.querier);
        }
        match self.querier.latest_event() {
            None => Ok(
                CommandReport { outcome: Outcome::NoActiveSession, session: None, event: None },
            ),
            Some(last) => {
                proof {
                    crate::store::lemma_latest_session_stored(self.querier@);
                }
                let s = match self.querier.get_session_by_id(&GetSessionByIdArgs { session_id: &last.session_id }) {
                    Ok(s) => s,
                    Err(err) => return Err(err),
                };
                match last.kind {
                    SessionEventKind::Started | SessionEventKind::Resumed | SessionEventKind::Paused => {
                        if args.reset {
                            let e = SessionEvent {
                                id: event_id,
                                kind: SessionEventKind::Aborted,
                                session_id: last.session_id,
                                created_at: now,
                            };
                            record_event(&mut self.querier, Outcome::Aborted(s.kind), s, e)
                        } else if last.kind == SessionEventKind::Paused {
                            Ok(
                                CommandReport {
                                    outcome: Outcome::AlreadyPaused(s.kind),
                                    session: Some(s),
                                    event: None,
                                },
                            )
                        } else {
                            let e = SessionEvent {
                                id: event_id,
                                kind: SessionEventKind::Paused,
                                session_id: last.session_id,
                                created_at: now,
                            };
                            record_event(&mut self.querier, Outcome::Paused(s.kind), s, e)
                        }
                    },
                    SessionEventKind::Aborted | SessionEventKind::Completed => Ok(
                        CommandReport {
                            outcome: Outcome::NotActive(s.kind),
                            session: Some(s),
                            event: None,
                        },
                    ),
                }
            },
        }
    }

    /// Run `stop` now, with a fresh identifier.
    pub fn execute(&mut self, args: &StopCommandArgs) -> (r: Result<CommandReport, StoreError>)
        ensures
            final(self).querier@.wf(),
            exists|event_id: u128, now: i64|
                (r, final(self).querier@) == stop_step(old(self).querier@, *args, event_id, now),
    {
        proof {
            use_type_invariant(&self.querier);
        }
        let event_id = new_id();
        let now = now_micros();
        self.execute_at(args, event_id, now)
    }
}

} // verus!
