//! Properties that hold across commands and calls.
use vstd::prelude::*;

use crate::config::{StartCommandArgs, StopCommandArgs};
use crate::machine::{latest_kind, start_effect, start_step, stop_effect, stop_step, Effect};
use crate::model::{SessionEvent, SessionEventKind};
use crate::replay::{chronological, status_step, SessionState};
use crate::store::{
    ascending, descending, lemma_newest_first, lemma_page_descending, page, Log,
};

verus! {

/// `start` while the latest event is `Started` or `Resumed` records nothing,
/// and reports success.
pub proof fn start_while_running_records_nothing(
    log: Log,
    args: StartCommandArgs,
    session_id: u128,
    event_id: u128,
    now: i64,
)
    requires
        log.wf(),
        latest_kind(log) == Some(SessionEventKind::Started) || latest_kind(log) == Some(
            SessionEventKind::Resumed,
        ),
    ensures
        start_step(log, args, session_id, event_id, now).1 == log,
        start_step(log, args, session_id, event_id, now).0 is Ok,
        start_step(log, args, session_id, event_id, now).0->Ok_0.event is None,
{
}

/// After a successful `start`, a second `start` records nothing.
pub proof fn start_twice_records_once(
    log: Log,
    args: StartCommandArgs,
    session_id: u128,
    event_id: u128,
    now: i64,
    args2: StartCommandArgs,
    session_id2: u128,
    event_id2: u128,
    now2: i64,
)
    requires
        log.wf(),
        start_step(log, args, session_id, event_id, now).0 is Ok,
    ensures
        ({
            let after = start_step(log, args, session_id, event_id, now).1;
            start_step(after, args2, session_id2, event_id2, now2).1 == after
        }),
{
    let after = start_step(log, args, session_id, event_id, now).1;
    if after != log {
        assert(after.events.last().kind == SessionEventKind::Started || after.events.last().kind
            == SessionEventKind::Resumed);
        assert(after.events.len() > 0);
    } else {
        assert(latest_kind(log) == Some(SessionEventKind::Started) || latest_kind(log) == Some(
            SessionEventKind::Resumed,
        ));
    }
}

/// `start` does what its transition table says: nothing; an event of the
/// table's kind against the latest event's session; or a new session of the
/// requested kind with its `Started` event. A refused write changes nothing.
pub proof fn start_follows_table(
    log: Log,
    args: StartCommandArgs,
    session_id: u128,
    event_id: u128,
    now: i64,
)
    requires
        log.wf(),
    ensures
        ({
            let (r, after) = start_step(log, args, session_id, event_id, now);
            match start_effect(latest_kind(log)) {
                Effect::Nothing => r is Ok && r->Ok_0.event is None && after == log,
                Effect::Append(k) => match r {
                    Ok(rep) => rep.event is Some && after == log.add_event(rep.event->Some_0)
                        && rep.event->Some_0.kind == k && rep.event->Some_0.session_id
                        == log.latest_event()->Some_0.session_id,
                    Err(_) => after == log,
                },
                Effect::NewSession => match r {
                    Ok(rep) => rep.session is Some && rep.event is Some && after
                        == log.add_session(rep.session->Some_0).add_event(rep.event->Some_0)
                        && rep.session->Some_0.kind == args.mode.spec_kind()
                        && rep.session->Some_0.id == session_id
                        && rep.event->Some_0.kind == SessionEventKind::Started
                        && rep.event->Some_0.session_id == session_id,
                    Err(_) => after == log,
                },
            }
        }),
{
}

/// `stop` does what its transition table says: nothing, or an event of the
/// table's kind against the latest event's session. A refused write changes
/// nothing.
pub proof fn stop_follows_table(log: Log, args: StopCommandArgs, event_id: u128, now: i64)
    requires
        log.wf(),
    ensures
        ({
            let (r, after) = stop_step(log, args, event_id, now);
            match stop_effect(latest_kind(log), args.reset) {
                Effect::Nothing => r is Ok && r->Ok_0.event is None && after == log,
                Effect::Append(k) => match r {
                    Ok(rep) => rep.event is Some && after == log.add_event(rep.event->Some_0)
                        && rep.event->Some_0.kind == k && rep.event->Some_0.session_id
                        == log.latest_event()->Some_0.session_id,
                    Err(_) => after == log,
                },
                Effect::NewSession => false,
            }
        }),
{
}

/// With a paused session, `stop` with reset records `Aborted` for it (when
/// the event fits the store's order), and `stop` without reset records nothing.
pub proof fn stop_paused_session(log: Log, event_id: u128, now: i64)
    requires
        log.wf(),
        latest_kind(log) == Some(SessionEventKind::Paused),
    ensures
        ({
            let last = log.latest_event()->Some_0;
            let e = SessionEvent {
                id: event_id,
                kind: SessionEventKind::Aborted,
                session_id: last.session_id,
                created_at: now,
            };
            &&& log.event_in_order(e) ==> stop_step(log, StopCommandArgs { reset: true }, event_id, now).1
                == log.add_event(e)
            &&& stop_step(log, StopCommandArgs { reset: false }, event_id, now).1 == log
            &&& stop_step(log, StopCommandArgs { reset: false }, event_id, now).0 is Ok
        }),
{
}

/// Listing events, of one session or of all, with any paging, yields them
/// newest first by identifier; the reverse of a listing is in chronological
/// order, identifiers and times both ascending.
pub proof fn listing_is_newest_first(
    log: Log,
    session_id: Option<u128>,
    offset: Option<u32>,
    limit: Option<u32>,
)
    requires
        log.wf(),
    ensures
        descending(page(log.events_newest_first(session_id), offset, limit)),
        ascending(page(log.events_newest_first(session_id), offset, limit).reverse()),
        chronological(page(log.events_newest_first(session_id), offset, limit).reverse()),
{
    lemma_newest_first(log.events, session_id);
    let p = page(log.events_newest_first(session_id), offset, limit);
    lemma_page_descending(log.events_newest_first(session_id), offset, limit);
    let r = p.reverse();
    assert forall|i: int, j: int| 0 <= i < j < r.len() implies r[i].id < r[j].id
        && r[i].created_at <= r[j].created_at by {
        assert(r[i] == p[p.len() - 1 - i]);
        assert(r[j] == p[p.len() - 1 - j]);
    }
}

/// Two `status` calls complete a session at most once: when the first
/// records a `Completed` event, that is the only event it adds, and the
/// second call, at any time, records nothing.
pub proof fn auto_completion_is_idempotent(log: Log, event_id: u128, now: i64, event_id2: u128, now2: i64)
    requires
        log.wf(),
        status_step(log, event_id, now).0 is Ok,
    ensures
        ({
            let (r, after) = status_step(log, event_id, now);
            let rep = r->Ok_0;
            &&& rep.event is None ==> after == log
            &&& rep.event is Some ==> {
                &&& after == log.add_event(rep.event->Some_0)
                &&& rep.event->Some_0.kind == SessionEventKind::Completed
                &&& rep.status.state == SessionState::Completed
                &&& status_step(after, event_id2, now2).1 == after
                &&& status_step(after, event_id2, now2).0->Ok_0.event is None
            }
        }),
{
    let (r, after) = status_step(log, event_id, now);
    let rep = r->Ok_0;
    if rep.event is Some {
        let e = rep.event->Some_0;
        let s = log.latest_session()->Some_0;
        assert(after.latest_session() == Some(s));
        assert(after.events.drop_last() =~= log.events);
        assert(after.events.last() == e);
        let h = after.events_newest_first(Some(s.id));
        assert(h[0] == e);
        let p = page(h, None, Some(u32::MAX));
        assert(p[0] == e);
    }
}

} // verus!
