use pomodoro::model::{Session, SessionEvent, SessionEventKind, SessionKind};
use pomodoro::replay::{assemble_status, replay, SessionState, SessionStatus, StatusCommand};
use pomodoro::store::{InsertSessionArgs, InsertSessionEventArgs, ListSessionEventsArgs, Querier};

const SEC: i64 = 1_000_000;
const T0: i64 = 1_700_000_000 * SEC;

fn event(id: u128, kind: SessionEventKind, created_at: i64) -> SessionEvent {
    SessionEvent {
        id,
        kind,
        session_id: 1,
        created_at,
    }
}

fn focus_session(planned_secs: i64) -> Session {
    Session {
        id: 1,
        kind: SessionKind::Focus,
        planned_secs,
        created_at: T0 - 3600 * SEC,
    }
}

fn store_with(planned_secs: i64, events: &[SessionEvent]) -> Querier {
    let mut querier = Querier::new();
    querier
        .insert_session(&InsertSessionArgs {
            session: &focus_session(planned_secs),
        })
        .unwrap();
    for e in events {
        querier
            .insert_session_event(&InsertSessionEventArgs { session_event: e })
            .unwrap();
    }
    querier
}

fn event_count(querier: &Querier) -> usize {
    querier
        .list_session_events(&ListSessionEventsArgs {
            session_id: None,
            limit: None,
            offset: None,
        })
        .len()
}

#[test]
fn replay_sums_running_segments() {
    let events = vec![
        event(1, SessionEventKind::Started, T0),
        event(2, SessionEventKind::Paused, T0 + 5 * SEC),
        event(3, SessionEventKind::Resumed, T0 + 10 * SEC),
    ];
    assert_eq!(replay(&events, T0 + 15 * SEC), 10 * SEC as i128);
    let mut newest = events.clone();
    newest.reverse();
    let status = assemble_status(&focus_session(1500), &newest, T0 + 15 * SEC);
    assert_eq!(status.elapsed_secs, 10);
    assert_eq!(status.remaining_secs, 1490);
    assert_eq!(status.state, SessionState::Running);
    assert_eq!(status.kind, "focus");
}

#[test]
fn replay_of_nothing_is_zero() {
    assert_eq!(replay(&Vec::new(), T0), 0);
}

#[test]
fn replay_ignores_time_after_a_closing_event() {
    let events = vec![
        event(1, SessionEventKind::Started, T0),
        event(2, SessionEventKind::Paused, T0 + 7 * SEC),
        event(3, SessionEventKind::Aborted, T0 + 9 * SEC),
    ];
    assert_eq!(replay(&events, T0 + 100 * SEC), 7 * SEC as i128);
}

#[test]
fn replay_keeps_sub_second_precision_until_the_end() {
    let events = vec![
        event(1, SessionEventKind::Started, T0),
        event(2, SessionEventKind::Paused, T0 + SEC / 2),
        event(3, SessionEventKind::Resumed, T0 + SEC),
        event(4, SessionEventKind::Paused, T0 + SEC + SEC / 2 + 1),
    ];
    assert_eq!(replay(&events, T0), (SEC + 1) as i128);
    let mut newest = events.clone();
    newest.reverse();
    assert_eq!(assemble_status(&focus_session(60), &newest, T0).elapsed_secs, 1);
}

#[test]
fn elapsed_is_clamped_at_zero_when_the_clock_goes_back() {
    let newest = vec![event(1, SessionEventKind::Started, T0)];
    assert_eq!(replay(&newest, T0 - 30 * SEC), -30 * SEC as i128);
    let status = assemble_status(&focus_session(60), &newest, T0 - 30 * SEC);
    assert_eq!(status.elapsed_secs, 0);
    assert_eq!(status.remaining_secs, 60);
}

#[test]
fn remaining_is_clamped_at_zero() {
    let newest = vec![
        event(2, SessionEventKind::Paused, T0 + 90 * SEC),
        event(1, SessionEventKind::Started, T0),
    ];
    let status = assemble_status(&focus_session(60), &newest, T0 + 200 * SEC);
    assert_eq!(status.elapsed_secs, 90);
    assert_eq!(status.remaining_secs, 0);
    assert_eq!(status.state, SessionState::Paused);
}

#[test]
fn state_follows_latest_event() {
    let cases = [
        (SessionEventKind::Started, SessionState::Running),
        (SessionEventKind::Resumed, SessionState::Running),
        (SessionEventKind::Paused, SessionState::Paused),
        (SessionEventKind::Aborted, SessionState::Aborted),
        (SessionEventKind::Completed, SessionState::Completed),
    ];
    for (kind, state) in cases {
        assert_eq!(SessionState::from(&kind), state);
    }
    assert_eq!(SessionState::Running.as_str(), "running");
    assert_eq!(SessionState::NoSession.as_str(), "none");
    let status = assemble_status(&focus_session(60), &Vec::new(), T0);
    assert_eq!(status.state, SessionState::NoSession);
    assert_eq!(status.elapsed_secs, 0);
}

#[test]
fn status_auto_completes_when_time_is_up() {
    let now = T0 + 1500 * SEC;
    let mut cmd = StatusCommand {
        querier: store_with(1500, &[event(10, SessionEventKind::Started, now - 1500 * SEC)]),
    };
    let report = cmd.execute_at(11, now).unwrap();
    assert_eq!(report.status.remaining_secs, 0);
    assert_eq!(report.status.elapsed_secs, 1500);
    assert_eq!(report.status.planned_secs, 1500);
    assert_eq!(report.status.state, SessionState::Completed);
    let completed = SessionEvent {
        id: 11,
        kind: SessionEventKind::Completed,
        session_id: 1,
        created_at: now,
    };
    assert_eq!(report.event, Some(completed));
    assert_eq!(cmd.querier.latest_event(), Some(completed));
    assert_eq!(event_count(&cmd.querier), 2);
}

#[test]
fn status_twice_completes_once() {
    let now = T0 + 1500 * SEC;
    let mut cmd = StatusCommand {
        querier: store_with(1500, &[event(10, SessionEventKind::Started, T0)]),
    };
    let first = cmd.execute_at(11, now).unwrap();
    assert!(first.event.is_some());
    let second = cmd.execute_at(12, now + 60 * SEC).unwrap();
    assert_eq!(second.event, None);
    assert_eq!(second.status.state, SessionState::Completed);
    assert_eq!(event_count(&cmd.querier), 2);
}

#[test]
fn status_of_running_session_with_time_left_records_nothing() {
    let mut cmd = StatusCommand {
        querier: store_with(1500, &[event(10, SessionEventKind::Started, T0)]),
    };
    let report = cmd.execute_at(11, T0 + 1499 * SEC).unwrap();
    assert_eq!(report.status.remaining_secs, 1);
    assert_eq!(report.status.state, SessionState::Running);
    assert_eq!(report.event, None);
    assert_eq!(event_count(&cmd.querier), 1);
}

#[test]
fn status_without_sessions_is_empty() {
    let mut cmd = StatusCommand {
        querier: Querier::new(),
    };
    let report = cmd.execute_at(1, T0).unwrap();
    assert_eq!(report.status.kind, "none");
    assert_eq!(report.status.state, SessionState::NoSession);
    assert_eq!(report.status.planned_secs, 0);
    assert_eq!(report.status.elapsed_secs, 0);
    assert_eq!(report.status.remaining_secs, 0);
    assert_eq!(report.session, None);
    assert_eq!(report.event, None);
    let empty = SessionStatus::default();
    assert_eq!(empty.kind, "none");
    assert_eq!(empty.state, SessionState::NoSession);
}

#[test]
fn status_reports_only_the_latest_session() {
    let mut querier = Querier::new();
    querier
        .insert_session(&InsertSessionArgs {
            session: &focus_session(1500),
        })
        .unwrap();
    querier
        .insert_session_event(&InsertSessionEventArgs {
            session_event: &event(10, SessionEventKind::Started, T0),
        })
        .unwrap();
    querier
        .insert_session_event(&InsertSessionEventArgs {
            session_event: &event(11, SessionEventKind::Aborted, T0 + 100 * SEC),
        })
        .unwrap();
    let brk = Session {
        id: 2,
        kind: SessionKind::Break,
        planned_secs: 300,
        created_at: T0 + 200 * SEC,
    };
    querier
        .insert_session(&InsertSessionArgs { session: &brk })
        .unwrap();
    let started = SessionEvent {
        id: 12,
        kind: SessionEventKind::Started,
        session_id: 2,
        created_at: T0 + 200 * SEC,
    };
    querier
        .insert_session_event(&InsertSessionEventArgs {
            session_event: &started,
        })
        .unwrap();
    let mut cmd = StatusCommand { querier };
    let report = cmd.execute_at(13, T0 + 260 * SEC).unwrap();
    assert_eq!(report.status.kind, "break");
    assert_eq!(report.status.elapsed_secs, 60);
    assert_eq!(report.status.remaining_secs, 240);
    assert_eq!(report.session, Some(brk));
}
