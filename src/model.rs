//! Sessions and the lifecycle events recorded against them.
use vstd::prelude::*;

use crate::clock::{new_id, now_micros};

verus! {

broadcast use vstd::string::group_string_axioms;

/// Microseconds in one second.
pub const MICROS_PER_SEC: i64 = 1_000_000;

/// Planned length of a session made by `Session::default` (25 minutes).
pub const DEFAULT_PLANNED_SECS: i64 = 1500;

/// The kind of a session: a focus interval or a break.
#[derive(Clone, Copy, Debug, PartialEq, Eq, Structural)]
pub enum SessionKind {
    /// A focus session: the default kind.
    Focus,
    /// A break between focus sessions.
    Break,
}

impl SessionKind {
    /// The stored name of the kind.
    pub open spec fn name(self) -> Seq<char> {
        match self {
            SessionKind::Focus => "focus"@,
            SessionKind::Break => "break"@,
        }
    }

    /// The stored name of the kind.
    pub fn as_str(&self) -> (r: &'static str)
        ensures
            r@ == self.name(),
    {
        match self {
            SessionKind::Focus => "focus",
            SessionKind::Break => "break",
        }
    }

    /// The stored name of the kind, as an owned string.
    pub fn to_string(&self) -> (r: String)
        ensures
            r@ == self.name(),
    {
        String::from_str(self.as_str())
    }

    /// Decode a stored name; any other text is an unknown variant.
    pub fn try_from(value: &str) -> (r: Result<SessionKind, String>)
        ensures
            match r {
                Ok(k) => k.name() == value@,
                Err(e) => {
                    &&& value@ != "focus"@
                    &&& value@ != "break"@
                    &&& e@ == "unknown session kind: "@ + value@
                },
            },
    {
        let v = String::from_str(value);
        if v == String::from_str("focus") {
            Ok(SessionKind::Focus)
        } else if v == String::from_str("break") {
            Ok(SessionKind::Break)
        } else {
            Err(String::from_str("unknown session kind: ").concat(value))
        }
    }
}

/// The kind of a lifecycle event recorded against a session.
#[derive(Clone, Copy, Debug, PartialEq, Eq, Structural)]
pub enum SessionEventKind {
    /// The session began running; always the first event of a session.
    Started,
    /// A paused session runs again.
    Resumed,
    /// A running session was paused.
    Paused,
    /// The session was cancelled before its planned end; terminal.
    Aborted,
    /// The session reached its planned duration; terminal.
    Completed,
}

impl SessionEventKind {
    /// The stored name of the kind.
    pub open spec fn name(self) -> Seq<char> {
        match self {
            SessionEventKind::Started => "started"@,
            SessionEventKind::Resumed => "resumed"@,
            SessionEventKind::Paused => "paused"@,
            SessionEventKind::Aborted => "aborted"@,
            SessionEventKind::Completed => "completed"@,
        }
    }

    /// Whether an event of this kind opens a running segment.
    pub open spec fn opens_segment(self) -> bool {
        self == SessionEventKind::Started || self == SessionEventKind::Resumed
    }

    /// Whether no event may follow an event of this kind.
    pub open spec fn is_terminal(self) -> bool {
        self == SessionEventKind::Aborted || self == SessionEventKind::Completed
    }

    /// Whether an event of this kind opens a running segment.
    pub fn is_start(&self) -> (r: bool)
        ensures
            r == self.opens_segment(),
    {
        match self {
            SessionEventKind::Started | SessionEventKind::Resumed => true,
            _ => false,
        }
    }

    /// The stored name of the kind.
    pub fn as_str(&self) -> (r: &'static str)
        ensures
            r@ == self.name(),
    {
        match self {
            SessionEventKind::Started => "started",
            SessionEventKind::Resumed => "resumed",
            SessionEventKind::Paused => "paused",
            SessionEventKind::Aborted => "aborted",
            SessionEventKind::Completed => "completed",
        }
    }

    /// The stored name of the kind, as an owned string.
    pub fn to_string(&self) -> (r: String)
        ensures
            r@ == self.name(),
    {
        String::from_str(self.as_str())
    }

    /// Decode a stored name; any other text is an unknown variant.
    pub fn try_from(value: &str) -> (r: Result<SessionEventKind, String>)
        ensures
            match r {
                Ok(k) => k.name() == value@,
                Err(e) => {
                    &&& value@ != "started"@
                    &&& value@ != "resumed"@
                    &&& value@ != "paused"@
                    &&& value@ != "aborted"@
                    &&& value@ != "completed"@
                    &&& e@ == "unknown session event kind: "@ + value@
                },
            },
    {
        let v = String::from_str(value);
        if v == String::from_str("started") {
            Ok(SessionEventKind::Started)
        } else if v == String::from_str("resumed") {
            Ok(SessionEventKind::Resumed)
        } else if v == String::from_str("paused") {
            Ok(SessionEventKind::Paused)
        } else if v == String::from_str("aborted") {
            Ok(SessionEventKind::Aborted)
        } else if v == String::from_str("completed") {
            Ok(SessionEventKind::Completed)
        } else {
            Err(String::from_str("unknown session event kind: ").concat(value))
        }
    }
}

/// One planned focus or break interval.
///
/// Identifiers grow with creation time; times are microseconds since the Unix
/// epoch, UTC.
#[derive(Clone, Copy, Debug, PartialEq, Eq, Structural)]
pub struct Session {
    /// Unique, time-ordered identifier.
    pub id: u128,
    /// Focus or break.
    pub kind: SessionKind,
    /// Planned length in seconds.
    pub planned_secs: i64,
    /// Creation time in microseconds since the Unix epoch.
    pub created_at: i64,
}

impl Default for Session {
    /// A 25-minute focus session with a fresh identifier, created now.
    fn default() -> (r: Session)
        ensures
            r.kind == SessionKind::Focus,
            r.planned_secs == DEFAULT_PLANNED_SECS,
            r.created_at >= 0,
    {
        Session {
            id: new_id(),
            kind: SessionKind::Focus,
            planned_secs: DEFAULT_PLANNED_SECS,
            created_at: now_micros(),
        }
    }
}

/// One lifecycle transition recorded against a session.
#[derive(Clone, Copy, Debug, PartialEq, Eq, Structural)]
pub struct SessionEvent {
    /// Unique, time-ordered identifier.
    pub id: u128,
    /// What happened.
    pub kind: SessionEventKind,
    /// The session the event belongs to.
    pub session_id: u128,
    /// Time of the event in microseconds since the Unix epoch.
    pub created_at: i64,
}

impl Default for SessionEvent {
    /// A `Started` event with a fresh identifier, the nil session id, created now.
    fn default() -> (r: SessionEvent)
        ensures
            r.kind == SessionEventKind::Started,
            r.session_id == 0,
            r.created_at >= 0,
    {
        SessionEvent::new(0, SessionEventKind::Started)
    }
}

impl SessionEvent {
    /// An event of `kind` for `session_id` with a fresh identifier, created now.
    pub fn new(session_id: u128, kind: SessionEventKind) -> (r: SessionEvent)
        ensures
            r.kind == kind,
            r.session_id == session_id,
            r.created_at >= 0,
    {
        SessionEvent { id: new_id(), kind, session_id, created_at: now_micros() }
    }

    /// A `Started` event for `session_id`, created now.
    pub fn started(session_id: u128) -> (r: SessionEvent)
        ensures
            r.kind == SessionEventKind::Started,
            r.session_id == session_id,
            r.created_at >= 0,
    {
        SessionEvent::new(session_id, SessionEventKind::Started)
    }

    /// A `Paused` event for `session_id`, created now.
    pub fn paused(session_id: u128) -> (r: SessionEvent)
        ensures
            r.kind == SessionEventKind::Paused,
            r.session_id == session_id,
            r.created_at >= 0,
    {
        SessionEvent::new(session_id, SessionEventKind::Paused)
    }

    /// A `Resumed` event for `session_id`, created now.
    pub fn resumed(session_id: u128) -> (r: SessionEvent)
        ensures
            r.kind == SessionEventKind::Resumed,
            r.session_id == session_id,
            r.created_at >= 0,
    {
        SessionEvent::new(session_id, SessionEventKind::Resumed)
    }

    /// An `Aborted` event for `session_id`, created now.
    pub fn aborted(session_id: u128) -> (r: SessionEvent)
        ensures
            r.kind == SessionEventKind::Aborted,
            r.session_id == session_id,
            r.created_at >= 0,
    {
        SessionEvent::new(session_id, SessionEventKind::Aborted)
    }

    /// A `Completed` event for `session_id`, created now.
    pub fn completed(session_id: u128) -> (r: SessionEvent)
        ensures
            r.kind == SessionEventKind::Completed,
            r.session_id == session_id,
            r.created_at >= 0,
    {
        SessionEvent::new(session_id, SessionEventKind::Completed)
    }
}

} // verus!
