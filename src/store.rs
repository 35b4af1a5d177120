//! The append-only event store: sessions and session events, kept in
//! identifier order and listed newest first.
use vstd::prelude::*;

use crate::model::{Session, SessionEvent};

verus! {

/// Why the store refused a request.
#[derive(Clone, Copy, Debug, PartialEq, Eq, Structural)]
pub enum StoreError {
    /// No session has the requested identifier.
    SessionNotFound,
    /// No session event has the requested identifier.
    SessionEventNotFound,
    /// The record's identifier (or an event's time) does not come after the
    /// latest record of its kind, so identifier order would no longer agree
    /// with creation order.
    OutOfOrder,
}

impl StoreError {
    /// A one-line description of the error.
    pub open spec fn description(self) -> Seq<char> {
        match self {
            StoreError::SessionNotFound => "session not found"@,
            StoreError::SessionEventNotFound => "session event not found"@,
            StoreError::OutOfOrder => "record is out of identifier order"@,
        }
    }

    /// A one-line description of the error.
    pub fn message(&self) -> (r: &'static str)
        ensures
            r@ == self.description(),
    {
        match self {
            StoreError::SessionNotFound => "session not found",
            StoreError::SessionEventNotFound => "session event not found",
            StoreError::OutOfOrder => "record is out of identifier order",
        }
    }
}

/// The records of a store, oldest first.
pub struct Log {
    /// Sessions in the order they were inserted.
    pub sessions: Seq<Session>,
    /// Session events in the order they were inserted.
    pub events: Seq<SessionEvent>,
}

/// Whether `e` is selected by an optional session filter.
pub open spec fn belongs(e: SessionEvent, session_id: Option<u128>) -> bool {
    match session_id {
        None => true,
        Some(id) => e.session_id == id,
    }
}

/// The events of `events` selected by `session_id`, newest (last inserted) first.
pub open spec fn newest_first(events: Seq<SessionEvent>, session_id: Option<u128>) -> Seq<
    SessionEvent,
>
    decreases events.len(),
{
    if events.len() == 0 {
        Seq::empty()
    } else {
        let rest = newest_first(events.drop_last(), session_id);
        if belongs(events.last(), session_id) {
            seq![events.last()] + rest
        } else {
            rest
        }
    }
}

/// The page of `s` that skips `offset` items (none when absent) and keeps at
/// most `limit` (all when absent).
pub open spec fn page<T>(s: Seq<T>, offset: Option<u32>, limit: Option<u32>) -> Seq<T> {
    let start: int = match offset {
        None => 0,
        Some(o) => if o < s.len() {
            o as int
        } else {
            s.len() as int
        },
    };
    let rest = s.subrange(start, s.len() as int);
    match limit {
        None => rest,
        Some(l) => if l < rest.len() {
            rest.take(l as int)
        } else {
            rest
        },
    }
}

/// Each item comes strictly after the previous in identifier order, and no
/// earlier in time.
pub open spec fn ascending(events: Seq<SessionEvent>) -> bool {
    forall|i: int, j: int|
        0 <= i < j < events.len() ==> events[i].id < events[j].id && events[i].created_at
            <= events[j].created_at
}

/// Each item comes strictly before the previous in identifier order, and no
/// later in time.
pub open spec fn descending(events: Seq<SessionEvent>) -> bool {
    forall|i: int, j: int|
        0 <= i < j < events.len() ==> events[i].id > events[j].id && events[i].created_at
            >= events[j].created_at
}

impl Log {
    /// The store's invariant: identifiers grow with insertion, event times never
    /// go back, and every event belongs to a stored session.
    pub open spec fn wf(self) -> bool {
        &&& forall|i: int, j: int|
            0 <= i < j < self.sessions.len() ==> self.sessions[i].id < self.sessions[j].id
        &&& ascending(self.events)
        &&& forall|i: int| 0 <= i < self.events.len() ==> self.has_session(#[trigger] self.events[i].session_id)
    }

    /// Whether a session with identifier `id` is stored.
    pub open spec fn has_session(self, id: u128) -> bool {
        exists|k: int| 0 <= k < self.sessions.len() && self.sessions[k].id == id
    }

    /// The stored session with identifier `id` (meaningful when there is one).
    pub open spec fn session_with(self, id: u128) -> Session {
        let k = choose|k: int| 0 <= k < self.sessions.len() && self.sessions[k].id == id;
        self.sessions[k]
    }

    /// Whether the stored event with identifier `id` exists.
    pub open spec fn has_event(self, id: u128) -> bool {
        exists|k: int| 0 <= k < self.events.len() && self.events[k].id == id
    }

    /// The stored event with identifier `id` (meaningful when there is one).
    pub open spec fn event_with(self, id: u128) -> SessionEvent {
        let k = choose|k: int| 0 <= k < self.events.len() && self.events[k].id == id;
        self.events[k]
    }

    /// Whether `s` may be appended: its identifier follows every stored one.
    pub open spec fn session_fits(self, s: Session) -> bool {
        self.sessions.len() == 0 || self.sessions.last().id < s.id
    }

    /// Whether `e` may follow the stored events: a later identifier and a time
    /// no earlier than the latest event's.
    pub open spec fn event_in_order(self, e: SessionEvent) -> bool {
        self.events.len() == 0 || (self.events.last().id < e.id && self.events.last().created_at
            <= e.created_at)
    }

    /// The most recent event across all sessions.
    pub open spec fn latest_event(self) -> Option<SessionEvent> {
        if self.events.len() == 0 {
            None
        } else {
            Some(self.events.last())
        }
    }

    /// The most recently created session.
    pub open spec fn latest_session(self) -> Option<Session> {
        if self.sessions.len() == 0 {
            None
        } else {
            Some(self.sessions.last())
        }
    }

    /// The log with `s` appended.
    pub open spec fn add_session(self, s: Session) -> Log {
        Log { sessions: self.sessions.push(s), events: self.events }
    }

    /// The log with `e` appended.
    pub open spec fn add_event(self, e: SessionEvent) -> Log {
        Log { sessions: self.sessions, events: self.events.push(e) }
    }

    /// The events of one session (or of all, for `None`), newest first.
    pub open spec fn events_newest_first(self, session_id: Option<u128>) -> Seq<SessionEvent> {
        newest_first(self.events, session_id)
    }
}

/// In a well-formed log, the latest event's session is stored.
pub proof fn lemma_latest_session_stored(log: Log)
    requires
        log.wf(),
        log.events.len() > 0,
    ensures
        log.has_session(log.events.last().session_id),
{
    assert(log.has_session(log.events[log.events.len() - 1].session_id));
}

/// Every element of `newest_first(events, sid)` is a selected element of
/// `events`, and the listing runs against `events`' order.
pub proof fn lemma_newest_first(events: Seq<SessionEvent>, session_id: Option<u128>)
    ensures
        forall|k: int|
            0 <= k < newest_first(events, session_id).len() ==> events.contains(
                #[trigger] newest_first(events, session_id)[k],
            ) && belongs(newest_first(events, session_id)[k], session_id),
        ascending(events) ==> descending(newest_first(events, session_id)),
    decreases events.len(),
{
    if events.len() > 0 {
        let prefix = events.drop_last();
        lemma_newest_first(prefix, session_id);
        let rest = newest_first(prefix, session_id);
        let r = newest_first(events, session_id);
        assert forall|k: int| 0 <= k < rest.len() implies events.contains(#[trigger] rest[k]) by {
            let j = choose|j: int| 0 <= j < prefix.len() && prefix[j] == rest[k];
            assert(events[j] == rest[k]);
        }
        assert(events.contains(events.last())) by {
            assert(events[events.len() - 1] == events.last());
        }
        if ascending(events) {
            assert(ascending(prefix));
            if belongs(events.last(), session_id) {
                assert forall|k: int| 0 <= k < rest.len() implies #[trigger] rest[k].id
                    < events.last().id && rest[k].created_at <= events.last().created_at by {
                    let j = choose|j: int| 0 <= j < prefix.len() && prefix[j] == rest[k];
                    assert(events[j] == rest[k]);
                }
                assert forall|i: int, j: int| 0 <= i < j < r.len() implies r[i].id > r[j].id
                    && r[i].created_at >= r[j].created_at by {
                    if i > 0 {
                        assert(r[i] == rest[i - 1]);
                    }
                    assert(r[j] == rest[j - 1]);
                }
            }
        }
    }
}

/// A page of a listing keeps its order.
pub proof fn lemma_page_descending(s: Seq<SessionEvent>, offset: Option<u32>, limit: Option<u32>)
    requires
        descending(s),
    ensures
        descending(page(s, offset, limit)),
        forall|k: int|
            0 <= k < page(s, offset, limit).len() ==> s.contains(#[trigger] page(s, offset, limit)[k]),
{
    let p = page(s, offset, limit);
    let start: int = match offset {
        None => 0,
        Some(o) => if o < s.len() {
            o as int
        } else {
            s.len() as int
        },
    };
    assert forall|k: int| 0 <= k < p.len() implies p[k] == s[start + k] by {}
    assert forall|k: int| 0 <= k < p.len() implies s.contains(#[trigger] p[k]) by {
        assert(p[k] == s[start + k]);
    }
    assert forall|i: int, j: int| 0 <= i < j < p.len() implies p[i].id > p[j].id
        && p[i].created_at >= p[j].created_at by {
        assert(p[i] == s[start + i]);
        assert(p[j] == s[start + j]);
    }
}

/// Paging arguments for `Querier::list_sessions`.
#[derive(Clone, Copy, Debug, PartialEq, Eq, Structural)]
pub struct ListSessionsArgs {
    /// Maximum number of sessions to return; all when absent.
    pub limit: Option<u32>,
    /// Number of sessions to skip first; none when absent.
    pub offset: Option<u32>,
}

impl ListSessionsArgs {
    /// Only the most recent session.
    pub fn first() -> (r: ListSessionsArgs)
        ensures
            r.limit == Some(1u32),
            r.offset == None::<u32>,
    {
        ListSessionsArgs { limit: Some(1), offset: None }
    }
}

impl Default for ListSessionsArgs {
    /// Every session: no limit and no offset.
    fn default() -> (r: ListSessionsArgs)
        ensures
            r.limit == None::<u32>,
            r.offset == None::<u32>,
    {
        ListSessionsArgs { limit: None, offset: None }
    }
}

/// Filter and paging arguments for `Querier::list_session_events`.
#[derive(Clone, Copy, Debug, PartialEq, Eq, Structural)]
pub struct ListSessionEventsArgs {
    /// Only the events of this session; events of all sessions when absent.
    pub session_id: Option<u128>,
    /// Maximum number of events to return; all when absent.
    pub limit: Option<u32>,
    /// Number of events to skip first; none when absent.
    pub offset: Option<u32>,
}

impl ListSessionEventsArgs {
    /// Only the most recent event across all sessions.
    pub fn first() -> (r: ListSessionEventsArgs)
        ensures
            r.session_id == None::<u128>,
            r.limit == Some(1u32),
            r.offset == None::<u32>,
    {
        ListSessionEventsArgs { session_id: None, limit: Some(1), offset: None }
    }

    /// The whole history of one session (up to `u32::MAX` events).
    pub fn with_session_id(session_id: u128) -> (r: ListSessionEventsArgs)
        ensures
            r.session_id == Some(session_id),
            r.limit == Some(u32::MAX),
            r.offset == None::<u32>,
    {
        ListSessionEventsArgs { session_id: Some(session_id), limit: Some(u32::MAX), offset: None }
    }
}

impl Default for ListSessionEventsArgs {
    /// The most recent event across all sessions (limit 1, offset 0).
    fn default() -> (r: ListSessionEventsArgs)
        ensures
            r.session_id == None::<u128>,
            r.limit == Some(1u32),
            r.offset == Some(0u32),
    {
        ListSessionEventsArgs { session_id: None, limit: Some(1), offset: Some(0) }
    }
}

/// Arguments of `Querier::insert_session`.
#[derive(Debug)]
pub struct InsertSessionArgs<'s> {
    /// The session to store.
    pub session: &'s Session,
}

/// Arguments of `Querier::get_session_by_id`.
#[derive(Debug)]
pub struct GetSessionByIdArgs<'u> {
    /// The identifier of the session to look up.
    pub session_id: &'u u128,
}

/// Arguments of `Querier::insert_session_event`.
#[derive(Debug)]
pub struct InsertSessionEventArgs<'e> {
    /// The session event to store.
    pub session_event: &'e SessionEvent,
}

/// Arguments of `Querier::get_session_event_by_id`.
#[derive(Debug)]
pub struct GetSessionEventByIdArgs<'u> {
    /// The identifier of the session event to look up.
    pub session_event_id: &'u u128,
}

/// An in-memory event store holding sessions and their events.
pub struct Querier {
    sessions: Vec<Session>,
    events: Vec<SessionEvent>,
}

impl Querier {
    /// The store is always well-formed.
    #[verifier::type_invariant]
    pub open spec fn inv(&self) -> bool {
        self@.wf()
    }
}

impl View for Querier {
    type V = Log;

    closed spec fn view(&self) -> Log {
        Log { sessions: self.sessions@, events: self.events@ }
    }
}

/// The page of `all` that `offset` and `limit` select (see `page`).
fn page_of<T: Copy>(all: &Vec<T>, offset: Option<u32>, limit: Option<u32>) -> (r: Vec<T>)
    ensures
        r@ == page(all@, offset, limit),
{
    let n = all.len();
    let start: usize = match offset {
        None => 0,
        Some(o) => if (o as usize) < n {
            o as usize
        } else {
            n
        },
    };
    let end: usize = match limit {
        None => n,
        Some(l) => if (l as usize) < n - start {
            start + l as usize
        } else {
            n
        },
    };
    let mut out: Vec<T> = Vec::new();
    let mut i: usize = start;
    while i < end
        invariant
            start <= i <= end <= n == all@.len(),
            out@ == all@.subrange(start as int, i as int),
        decreases end - i,
    {
        out.push(all[i]);
        i = i + 1;
        proof {
            assert(out@ =~= all@.subrange(start as int, i as int));
        }
    }
    assert(out@ =~= page(all@, offset, limit));
    out
}

/// In a well-formed log, the session stored at `k` is the one with its identifier.
proof fn lemma_session_with(log: Log, k: int)
    requires
        log.wf(),
        0 <= k < log.sessions.len(),
    ensures
        log.has_session(log.sessions[k].id),
        log.session_with(log.sessions[k].id) == log.sessions[k],
{
    let id = log.sessions[k].id;
    assert(log.has_session(id));
    let j = choose|j: int| 0 <= j < log.sessions.len() && log.sessions[j].id == id;
    if j < k {
        assert(log.sessions[j].id < log.sessions[k].id);
    } else if k < j {
        assert(log.sessions[k].id < log.sessions[j].id);
    }
}

/// In a well-formed log, the event stored at `k` is the one with its identifier.
proof fn lemma_event_with(log: Log, k: int)
    requires
        log.wf(),
        0 <= k < log.events.len(),
    ensures
        log.has_event(log.events[k].id),
        log.event_with(log.events[k].id) == log.events[k],
{
    let id = log.events[k].id;
    assert(log.has_event(id));
    let j = choose|j: int| 0 <= j < log.events.len() && log.events[j].id == id;
    if j < k {
        assert(log.events[j].id < log.events[k].id);
    } else if k < j {
        assert(log.events[k].id < log.events[j].id);
    }
}

impl Querier {
    /// An empty store.
    pub fn new() -> (r: Querier)
        ensures
            r@.sessions == Seq::<Session>::empty(),
            r@.events == Seq::<SessionEvent>::empty(),
            r@.wf(),
    {
        Querier { sessions: Vec::new(), events: Vec::new() }
    }

    /// Append `args.session`; refused when its identifier does not follow every
    /// stored session's.
    pub fn insert_session(&mut self, args: &InsertSessionArgs) -> (r: Result<Session, StoreError>)
        ensures
            final(self)@.wf(),
            old(self)@.session_fits(*args.session) ==> r == Ok::<Session, StoreError>(*args.session)
                && final(self)@ == old(self)@.add_session(*args.session),
            !old(self)@.session_fits(*args.session) ==> r == Err::<Session, StoreError>(
                StoreError::OutOfOrder,
            ) && final(self)@ == old(self)@,
    {
        proof {
            use_type_invariant(&*self);
        }
        let n = self.sessions.len();
        if n > 0 && self.sessions[n - 1].id >= args.session.id {
            return Err(StoreError::OutOfOrder);
        }
        let ghost before = self@;
        let mut taken = Querier::new();
        core::mem::swap(self, &mut taken);
        let Querier { mut sessions, events } = taken;
        sessions.push(*args.session);
        proof {
            let after = Log { sessions: sessions@, events: events@ };
            assert(after == before.add_session(*args.session));
            assert forall|i: int, j: int| 0 <= i < j < after.sessions.len() implies after.sessions[i].id
                < after.sessions[j].id by {
                if j == n && i < n - 1 {
                    assert(before.sessions[i].id < before.sessions[n - 1].id);
                }
            }
            assert forall|i: int| 0 <= i < after.events.len() implies after.has_session(
                #[trigger] after.events[i].session_id,
            ) by {
                assert(before.has_session(before.events[i].session_id));
                let k = choose|k: int|
                    0 <= k < before.sessions.len() && before.sessions[k].id
                        == before.events[i].session_id;
                assert(after.sessions[k] == before.sessions[k]);
            }
        }
        *self = Querier { sessions, events };
        Ok(*args.session)
    }

    /// The most recent event across all sessions.
    pub fn latest_event(&self) -> (r: Option<SessionEvent>)
        ensures
            r == self@.latest_event(),
    {
        let n = self.events.len();
        if n == 0 {
            None
        } else {
            Some(self.events[n - 1])
        }
    }

    /// The most recently created session.
    pub fn latest_session(&self) -> (r: Option<Session>)
        ensures
            r == self@.latest_session(),
    {
        let n = self.sessions.len();
        if n == 0 {
            None
        } else {
            Some(self.sessions[n - 1])
        }
    }

    /// Whether `session` would be accepted by `insert_session`.
    pub fn session_fits(&self, session: &Session) -> (r: bool)
        ensures
            r == self@.session_fits(*session),
    {
        let n = self.sessions.len();
        n == 0 || self.sessions[n - 1].id < session.id
    }

    /// Whether `event` follows the latest stored event in identifier order and
    /// in time.
    pub fn event_in_order(&self, event: &SessionEvent) -> (r: bool)
        ensures
            r == self@.event_in_order(*event),
    {
        let n = self.events.len();
        n == 0 || (self.events[n - 1].id < event.id && self.events[n - 1].created_at
            <= event.created_at)
    }

    /// The stored session with identifier `args.session_id`.
    pub fn get_session_by_id(&self, args: &GetSessionByIdArgs) -> (r: Result<Session, StoreError>)
        ensures
            self@.has_session(*args.session_id) ==> r == Ok::<Session, StoreError>(
                self@.session_with(*args.session_id),
            ),
            !self@.has_session(*args.session_id) ==> r == Err::<Session, StoreError>(
                StoreError::SessionNotFound,
            ),
    {
        proof {
            use_type_invariant(&*self);
        }
        let n = self.sessions.len();
        let mut i: usize = 0;
        while i < n
            invariant
                self@.wf(),
                n == self@.sessions.len(),
                i <= n,
                forall|k: int| 0 <= k < i ==> self@.sessions[k].id != *args.session_id,
            decreases n - i,
        {
            if self.sessions[i].id == *args.session_id {
                proof {
                    lemma_session_with(self@, i as int);
                }
                return Ok(self.sessions[i]);
            }
            i = i + 1;
        }
        Err(StoreError::SessionNotFound)
    }

    /// Sessions newest first, paged by `args`.
    pub fn list_sessions(&self, args: &ListSessionsArgs) -> (r: Vec<Session>)
        ensures
            r@ == page(self@.sessions.reverse(), args.offset, args.limit),
    {
        let n = self.sessions.len();
        let mut all: Vec<Session> = Vec::new();
        let mut i: usize = n;
        while i > 0
            invariant
                n == self@.sessions.len(),
                i <= n,
                all@.len() == n - i,
                forall|k: int| 0 <= k < all@.len() ==> all@[k] == self@.sessions[n - 1 - k],
            decreases i,
        {
            i = i - 1;
            all.push(self.sessions[i]);
        }
        assert(all@ =~= self@.sessions.reverse());
        page_of(&all, args.offset, args.limit)
    }

    /// Append `args.session_event`; refused when its session is not stored, or when it
    /// does not follow the latest event in identifier order and in time.
    pub fn insert_session_event(&mut self, args: &InsertSessionEventArgs) -> (r: Result<
        SessionEvent,
        StoreError,
    >)
        ensures
            final(self)@.wf(),
            !old(self)@.has_session(args.session_event.session_id) ==> r == Err::<SessionEvent, StoreError>(
                StoreError::SessionNotFound,
            ) && final(self)@ == old(self)@,
            old(self)@.has_session(args.session_event.session_id) && !old(self)@.event_in_order(*args.session_event) ==> r
                == Err::<SessionEvent, StoreError>(StoreError::OutOfOrder) && final(self)@ == old(
                self,
            )@,
            old(self)@.has_session(args.session_event.session_id) && old(self)@.event_in_order(*args.session_event) ==> r
                == Ok::<SessionEvent, StoreError>(*args.session_event) && final(self)@ == old(self)@.add_event(
                *args.session_event,
            ),
    {
        proof {
            use_type_invariant(&*self);
        }
        if self.get_session_by_id(&GetSessionByIdArgs { session_id: &args.session_event.session_id }).is_err() {
            return Err(StoreError::SessionNotFound);
        }
        let n = self.events.len();
        if n > 0 && (self.events[n - 1].id >= args.session_event.id || self.events[n - 1].created_at
            > args.session_event.created_at) {
            return Err(StoreError::OutOfOrder);
        }
        let ghost before = self@;
        let mut taken = Querier::new();
        core::mem::swap(self, &mut taken);
        let Querier { sessions, mut events } = taken;
        events.push(*args.session_event);
        proof {
            let after = Log { sessions: sessions@, events: events@ };
            assert(after == before.add_event(*args.session_event));
            assert forall|i: int, j: int| 0 <= i < j < after.events.len() implies after.events[i].id
                < after.events[j].id && after.events[i].created_at
                <= after.events[j].created_at by {
                if j == n && i < n - 1 {
                    assert(before.events[i].id < before.events[n - 1].id);
                    assert(before.events[i].created_at <= before.events[n - 1].created_at);
                }
            }
            assert forall|i: int| 0 <= i < after.events.len() implies after.has_session(
                #[trigger] after.events[i].session_id,
            ) by {
                if i < n {
                    assert(after.events[i] == before.events[i]);
                }
            }
        }
        *self = Querier { sessions, events };
        Ok(*args.session_event)
    }

    /// The stored session event with identifier `args.session_event_id`.
    pub fn get_session_event_by_id(&self, args: &GetSessionEventByIdArgs) -> (r: Result<
        SessionEvent,
        StoreError,
    >)
        ensures
            self@.has_event(*args.session_event_id) ==> r == Ok::<SessionEvent, StoreError>(
                self@.event_with(*args.session_event_id),
            ),
            !self@.has_event(*args.session_event_id) ==> r == Err::<SessionEvent, StoreError>(
                StoreError::SessionEventNotFound,
            ),
    {
        proof {
            use_type_invariant(&*self);
        }
        let n = self.events.len();
        let mut i: usize = 0;
        while i < n
            invariant
                self@.wf(),
                n == self@.events.len(),
                i <= n,
                forall|k: int| 0 <= k < i ==> self@.events[k].id != *args.session_event_id,
            decreases n - i,
        {
            if self.events[i].id == *args.session_event_id {
                proof {
                    lemma_event_with(self@, i as int);
                }
                return Ok(self.events[i]);
            }
            i = i + 1;
        }
        Err(StoreError::SessionEventNotFound)
    }

    /// Events newest first, of one session or of all, paged by `args`. The
    /// result runs backwards in identifier order and in time, so its reverse is
    /// the chronological order.
    pub fn list_session_events(&self, args: &ListSessionEventsArgs) -> (r: Vec<SessionEvent>)
        ensures
            r@ == page(self@.events_newest_first(args.session_id), args.offset, args.limit),
            descending(r@),
            forall|k: int|
                0 <= k < r@.len() ==> self@.events.contains(#[trigger] r@[k]) && belongs(
                    r@[k],
                    args.session_id,
                ),
    {
        proof {
            use_type_invariant(&*self);
        }
        let n = self.events.len();
        let ghost evs = self@.events;
        let mut all: Vec<SessionEvent> = Vec::new();
        let mut i: usize = n;
        assert(evs.take(n as int) =~= evs);
        while i > 0
            invariant
                n == evs.len(),
                evs == self@.events,
                i <= n,
                all@ + newest_first(evs.take(i as int), args.session_id) == newest_first(
                    evs,
                    args.session_id,
                ),
            decreases i,
        {
            let ghost prev = all@;
            let e = self.events[i - 1];
            proof {
                let t = evs.take(i as int);
                assert(t.drop_last() =~= evs.take(i - 1));
                assert(t.last() == e);
            }
            let keep = match args.session_id {
                None => true,
                Some(id) => e.session_id == id,
            };
            if keep {
                all.push(e);
                proof {
                    let rest = newest_first(evs.take(i - 1), args.session_id);
                    assert(prev + (seq![e] + rest) =~= all@ + rest);
                }
            }
            i = i - 1;
        }
        assert(evs.take(0) =~= Seq::<SessionEvent>::empty());
        assert(all@ + newest_first(evs.take(0), args.session_id) =~= all@);
        proof {
            lemma_newest_first(evs, args.session_id);
            lemma_page_descending(all@, args.offset, args.limit);
        }
        let r = page_of(&all, args.offset, args.limit);
        proof {
            assert forall|k: int| 0 <= k < r@.len() implies self@.events.contains(
                #[trigger] r@[k],
            ) && belongs(r@[k], args.session_id) by {
                let j = choose|j: int| 0 <= j < all@.len() && all@[j] == r@[k];
                assert(all@[j] == newest_first(evs, args.session_id)[j]);
            }
        }
        r
    }
}

} // verus!
