use pomodoro::config::{StartCommandArgs, StartMode, StopCommandArgs};
use pomodoro::machine::{CommandReport, Outcome, StartCommand, StopCommand};
use pomodoro::model::{Session, SessionEvent, SessionEventKind, SessionKind};
use pomodoro::store::{
    InsertSessionArgs, InsertSessionEventArgs, ListSessionEventsArgs, ListSessionsArgs, Querier,
    StoreError,
};

const SESSION: u128 = 100;
const NEW_SESSION: u128 = 200;
const NEW_EVENT: u128 = 300;
const NOW: i64 = 5_000_000;

fn existing_session() -> Session {
    Session {
        id: SESSION,
        kind: SessionKind::Break,
        planned_secs: 300,
        created_at: 1_000_000,
    }
}

/// A store whose only session has, as its latest event, one of kind `latest`.
fn store_with(latest: Option<SessionEventKind>) -> Querier {
    let mut querier = Querier::new();
    if let Some(kind) = latest {
        querier
            .insert_session(&InsertSessionArgs {
                session: &existing_session(),
            })
            .unwrap();
        let event = SessionEvent {
            id: 150,
            kind,
            session_id: SESSION,
            created_at: 2_000_000,
        };
        querier
            .insert_session_event(&InsertSessionEventArgs {
                session_event: &event,
            })
            .unwrap();
    }
    querier
}

fn all_events(querier: &Querier) -> Vec<SessionEvent> {
    querier.list_session_events(&ListSessionEventsArgs {
        session_id: None,
        limit: None,
        offset: None,
    })
}

fn new_event(kind: SessionEventKind, session_id: u128) -> SessionEvent {
    SessionEvent {
        id: NEW_EVENT,
        kind,
        session_id,
        created_at: NOW,
    }
}

fn run_start(latest: Option<SessionEventKind>) -> (CommandReport, Querier) {
    let mut cmd = StartCommand {
        querier: store_with(latest),
    };
    let args = StartCommandArgs {
        mode: StartMode::Focus,
        duration: Some(900),
    };
    let report = cmd.execute_at(&args, NEW_SESSION, NEW_EVENT, NOW).unwrap();
    (report, cmd.querier)
}

fn run_stop(latest: Option<SessionEventKind>, reset: bool) -> (CommandReport, Querier) {
    let mut cmd = StopCommand {
        querier: store_with(latest),
    };
    let report = cmd
        .execute_at(&StopCommandArgs { reset }, NEW_EVENT, NOW)
        .unwrap();
    (report, cmd.querier)
}

/// Check that a command recorded nothing and left the store as it was.
fn assert_unchanged(report: &CommandReport, after: &Querier, latest: Option<SessionEventKind>) {
    assert_eq!(report.event, None);
    let before = store_with(latest);
    assert_eq!(all_events(after), all_events(&before));
    assert_eq!(
        after.list_sessions(&ListSessionsArgs::default()),
        before.list_sessions(&ListSessionsArgs::default())
    );
}

/// Check that a command recorded one event of `kind` against the existing session.
fn assert_appended(report: &CommandReport, after: &Querier, kind: SessionEventKind) {
    let expected = new_event(kind, SESSION);
    assert_eq!(report.event, Some(expected));
    assert_eq!(report.session, Some(existing_session()));
    let events = all_events(after);
    assert_eq!(events.len(), 2);
    assert_eq!(events[0], expected);
}

/// Check that `start` created a new focus session with its `Started` event.
fn assert_new_session(report: &CommandReport, after: &Querier, previous_events: usize) {
    let session = Session {
        id: NEW_SESSION,
        kind: SessionKind::Focus,
        planned_secs: 900,
        created_at: NOW,
    };
    assert_eq!(report.session, Some(session));
    assert_eq!(report.event, Some(new_event(SessionEventKind::Started, NEW_SESSION)));
    assert_eq!(report.outcome, Outcome::Started(SessionKind::Focus));
    assert_eq!(after.latest_session(), Some(session));
    let events = all_events(after);
    assert_eq!(events.len(), previous_events + 1);
    assert_eq!(events[0], new_event(SessionEventKind::Started, NEW_SESSION));
}

// --- start: one test per row of the table ---

#[test]
fn table_start_with_no_event_creates_session() {
    let (report, after) = run_start(None);
    assert_new_session(&report, &after, 0);
}

#[test]
fn table_start_when_started_is_noop() {
    let latest = Some(SessionEventKind::Started);
    let (report, after) = run_start(latest);
    assert_eq!(report.outcome, Outcome::AlreadyRunning(SessionKind::Break));
    assert_unchanged(&report, &after, latest);
}

#[test]
fn table_start_when_resumed_is_noop() {
    let latest = Some(SessionEventKind::Resumed);
    let (report, after) = run_start(latest);
    assert_eq!(report.outcome, Outcome::AlreadyRunning(SessionKind::Break));
    assert_unchanged(&report, &after, latest);
}

#[test]
fn table_start_when_paused_resumes() {
    let (report, after) = run_start(Some(SessionEventKind::Paused));
    assert_eq!(report.outcome, Outcome::Resumed(SessionKind::Break));
    assert_appended(&report, &after, SessionEventKind::Resumed);
}

#[test]
fn table_start_when_aborted_creates_session() {
    let (report, after) = run_start(Some(SessionEventKind::Aborted));
    assert_new_session(&report, &after, 1);
}

#[test]
fn table_start_when_completed_creates_session() {
    let (report, after) = run_start(Some(SessionEventKind::Completed));
    assert_new_session(&report, &after, 1);
}

// --- stop without reset ---

#[test]
fn table_stop_with_no_event_is_noop() {
    let (report, after) = run_stop(None, false);
    assert_eq!(report.outcome, Outcome::NoActiveSession);
    assert_eq!(report.session, None);
    assert_unchanged(&report, &after, None);
}

#[test]
fn table_stop_when_started_pauses() {
    let (report, after) = run_stop(Some(SessionEventKind::Started), false);
    assert_eq!(report.outcome, Outcome::Paused(SessionKind::Break));
    assert_appended(&report, &after, SessionEventKind::Paused);
}

#[test]
fn table_stop_when_resumed_pauses() {
    let (report, after) = run_stop(Some(SessionEventKind::Resumed), false);
    assert_eq!(report.outcome, Outcome::Paused(SessionKind::Break));
    assert_appended(&report, &after, SessionEventKind::Paused);
}

#[test]
fn table_stop_when_paused_is_noop() {
    let latest = Some(SessionEventKind::Paused);
    let (report, after) = run_stop(latest, false);
    assert_eq!(report.outcome, Outcome::AlreadyPaused(SessionKind::Break));
    assert_unchanged(&report, &after, latest);
}

#[test]
fn table_stop_when_aborted_is_noop() {
    let latest = Some(SessionEventKind::Aborted);
    let (report, after) = run_stop(latest, false);
    assert_eq!(report.outcome, Outcome::NotActive(SessionKind::Break));
    assert_unchanged(&report, &after, latest);
}

#[test]
fn table_stop_when_completed_is_noop() {
    let latest = Some(SessionEventKind::Completed);
    let (report, after) = run_stop(latest, false);
    assert_eq!(report.outcome, Outcome::NotActive(SessionKind::Break));
    assert_unchanged(&report, &after, latest);
}

// --- stop with reset ---

#[test]
fn table_reset_with_no_event_is_noop() {
    let (report, after) = run_stop(None, true);
    assert_eq!(report.outcome, Outcome::NoActiveSession);
    assert_unchanged(&report, &after, None);
}

#[test]
fn table_reset_when_started_aborts() {
    let (report, after) = run_stop(Some(SessionEventKind::Started), true);
    assert_eq!(report.outcome, Outcome::Aborted(SessionKind::Break));
    assert_appended(&report, &after, SessionEventKind::Aborted);
}

#[test]
fn table_reset_when_resumed_aborts() {
    let (report, after) = run_stop(Some(SessionEventKind::Resumed), true);
    assert_eq!(report.outcome, Outcome::Aborted(SessionKind::Break));
    assert_appended(&report, &after, SessionEventKind::Aborted);
}

#[test]
fn table_reset_when_paused_aborts() {
    let (report, after) = run_stop(Some(SessionEventKind::Paused), true);
    assert_eq!(report.outcome, Outcome::Aborted(SessionKind::Break));
    assert_appended(&report, &after, SessionEventKind::Aborted);
}

#[test]
fn table_reset_when_aborted_is_noop() {
    let latest = Some(SessionEventKind::Aborted);
    let (report, after) = run_stop(latest, true);
    assert_eq!(report.outcome, Outcome::NotActive(SessionKind::Break));
    assert_unchanged(&report, &after, latest);
}

#[test]
fn table_reset_when_completed_is_noop() {
    let latest = Some(SessionEventKind::Completed);
    let (report, after) = run_stop(latest, true);
    assert_eq!(report.outcome, Outcome::NotActive(SessionKind::Break));
    assert_unchanged(&report, &after, latest);
}

// --- laws on concrete values ---

#[test]
fn start_twice_records_one_started_event() {
    let mut cmd = StartCommand {
        querier: Querier::new(),
    };
    let args = StartCommandArgs::default();
    cmd.execute_at(&args, 1, 2, 10).unwrap();
    let second = cmd.execute_at(&args, 3, 4, 20).unwrap();
    assert_eq!(second.outcome, Outcome::AlreadyRunning(SessionKind::Focus));
    assert_eq!(second.event, None);
    assert_eq!(all_events(&cmd.querier).len(), 1);
}

#[test]
fn stop_with_reset_on_paused_appends_aborted_and_without_appends_nothing() {
    let (report, after) = run_stop(Some(SessionEventKind::Paused), true);
    assert_eq!(all_events(&after)[0].kind, SessionEventKind::Aborted);
    assert_eq!(report.event.map(|e| e.kind), Some(SessionEventKind::Aborted));
    let (report, after) = run_stop(Some(SessionEventKind::Paused), false);
    assert_eq!(report.event, None);
    assert_eq!(all_events(&after).len(), 1);
}

#[test]
fn new_session_uses_default_duration_of_mode() {
    let mut cmd = StartCommand {
        querier: Querier::new(),
    };
    let args = StartCommandArgs {
        mode: StartMode::Break,
        duration: None,
    };
    let report = cmd.execute_at(&args, 1, 2, 10).unwrap();
    let session = report.session.unwrap();
    assert_eq!(session.kind, SessionKind::Break);
    assert_eq!(session.planned_secs, 300);
    assert_eq!(report.outcome.message(), "Started a new break session.");
}

// --- refused writes change nothing ---

#[test]
fn start_with_stale_identifiers_changes_nothing() {
    let mut cmd = StartCommand {
        querier: store_with(Some(SessionEventKind::Completed)),
    };
    let args = StartCommandArgs::default();
    // the session identifier does not follow the stored one
    assert_eq!(cmd.execute_at(&args, 50, NEW_EVENT, NOW), Err(StoreError::OutOfOrder));
    // the event identifier does not follow the stored one
    assert_eq!(cmd.execute_at(&args, NEW_SESSION, 120, NOW), Err(StoreError::OutOfOrder));
    assert_eq!(cmd.querier.latest_session(), Some(existing_session()));
    assert_eq!(all_events(&cmd.querier).len(), 1);
}

#[test]
fn stop_with_earlier_time_changes_nothing() {
    let mut cmd = StopCommand {
        querier: store_with(Some(SessionEventKind::Started)),
    };
    let result = cmd.execute_at(&StopCommandArgs { reset: false }, NEW_EVENT, 1_000);
    assert_eq!(result, Err(StoreError::OutOfOrder));
    assert_eq!(all_events(&cmd.querier).len(), 1);
}

// --- messages ---

#[test]
fn outcome_messages() {
    let cases = [
        (Outcome::Started(SessionKind::Focus), "Started a new focus session."),
        (Outcome::AlreadyRunning(SessionKind::Break), "A break session is already running."),
        (Outcome::Resumed(SessionKind::Focus), "Resumed the focus session."),
        (Outcome::Paused(SessionKind::Focus), "Paused the focus session."),
        (Outcome::Aborted(SessionKind::Break), "Aborted the break session."),
        (Outcome::AlreadyPaused(SessionKind::Focus), "The focus session is already paused."),
        (Outcome::NotActive(SessionKind::Focus), "No active focus session to stop."),
        (Outcome::NoActiveSession, "No active session found."),
    ];
    for (outcome, text) in cases {
        assert_eq!(outcome.message(), text);
    }
}
