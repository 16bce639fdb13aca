use vulcan_agent::event::{Event, EventKind};
use vulcan_agent::ids::{EventId, MessageId, ProviderCallId, SessionId};
use vulcan_agent::projector::SessionProjector;
use vulcan_agent::session::{ApprovalMode, MessageRole, SessionMode};
use vulcan_agent::time::Timestamp;

fn at(secs: i64) -> Timestamp {
    Timestamp { secs, nanos: 0 }
}

fn stamped(session: &str, sequence: u64, kind: EventKind) -> Event {
    Event::with_id(
        EventId(format!("event-{}-{}", session, sequence)),
        SessionId(session.into()),
        sequence,
        kind,
        at(1_000 + sequence as i64),
    )
}

#[test]
fn test_empty_events() {
    let projector = SessionProjector::new();
    let result = projector.project(&[]);
    assert!(result.session.is_none());
}

#[test]
fn test_simple_session_projection() {
    let session_id = SessionId("sess-1".into());
    let events = vec![
        Event::new(session_id.clone(), 1, EventKind::SessionCreated { mode: "build".into() }),
        Event::new(
            session_id.clone(),
            2,
            EventKind::MessageAppended { message_id: MessageId("msg-1".into()), role: "user".into() },
        ),
    ];

    let projector = SessionProjector::new();
    let result = projector.project(&events);

    let session = result.session.unwrap();
    assert!(matches!(session.mode, SessionMode::Build));
    assert_eq!(session.messages.len(), 1);
    assert_eq!(session.id, session_id);
}

#[test]
fn test_projection_order() {
    let session_id = SessionId("sess-2".into());
    let events = vec![
        Event::new(session_id.clone(), 1, EventKind::SessionCreated { mode: "ask".into() }),
        Event::new(
            session_id.clone(),
            2,
            EventKind::MessageAppended { message_id: MessageId("msg-1".into()), role: "user".into() },
        ),
        Event::new(
            session_id.clone(),
            3,
            EventKind::ProviderCallStarted {
                provider_call_id: ProviderCallId("pc-1".into()),
                model: "gpt-4".into(),
            },
        ),
        Event::new(
            session_id.clone(),
            4,
            EventKind::MessageAppended { message_id: MessageId("msg-2".into()), role: "assistant".into() },
        ),
        Event::new(session_id.clone(), 5, EventKind::ErrorRecorded { message: "test error".into() }),
    ];

    let projector = SessionProjector::new();
    let result = projector.project(&events);

    assert_eq!(result.errors, vec!["test error"]);
    assert_eq!(result.session.as_ref().unwrap().messages.len(), 2);
}

#[test]
fn test_unknown_mode_warning() {
    let session_id = SessionId("sess-3".into());
    let events = vec![Event::new(session_id.clone(), 1, EventKind::SessionCreated { mode: "unknown_mode".into() })];

    let projector = SessionProjector::new();
    let result = projector.project(&events);

    assert!(!result.warnings.is_empty());
    assert!(result.warnings[0].contains("unknown_mode"));
}

#[test]
fn projection_fields_follow_the_events() {
    let events = vec![
        stamped("s", 1, EventKind::SessionCreated { mode: "plan".into() }),
        stamped("s", 2, EventKind::MessageAppended { message_id: MessageId("m1".into()), role: "system".into() }),
        stamped("s", 3, EventKind::MessageAppended { message_id: MessageId("m2".into()), role: "tool".into() }),
        stamped("s", 4, EventKind::SessionSummaryUpdated { summary: "sum".into() }),
    ];
    let result = SessionProjector::new().project_at(&events, at(5));
    let session = result.session.unwrap();
    assert_eq!(session.id, SessionId("s".into()));
    assert_eq!(session.mode, SessionMode::Plan);
    assert_eq!(session.approval_mode, ApprovalMode::Never);
    assert_eq!(session.created_at, at(1_001));
    assert_eq!(session.updated_at, at(1_004));
    assert_eq!(session.messages.len(), 2);
    assert_eq!(session.messages[0].id, MessageId("m1".into()));
    assert_eq!(session.messages[0].role, MessageRole::System);
    assert_eq!(session.messages[0].created_at, at(1_002));
    assert_eq!(session.messages[1].role, MessageRole::Tool);
    assert!(session.messages[1].content.is_empty());
    assert!(result.errors.is_empty());
    assert!(result.warnings.is_empty());
}

#[test]
fn unknown_mode_and_role_warnings_are_exact() {
    let events = vec![
        stamped("s", 7, EventKind::SessionCreated { mode: "turbo".into() }),
        stamped("s", 12, EventKind::MessageAppended { message_id: MessageId("m".into()), role: "robot".into() }),
    ];
    let result = SessionProjector::new().project_at(&events, at(0));
    assert_eq!(
        result.warnings,
        vec!["Unknown session mode 'turbo' at event 7", "Unknown message role 'robot' at event 12"]
    );
    let session = result.session.unwrap();
    assert_eq!(session.mode, SessionMode::Ask);
    assert_eq!(session.messages[0].role, MessageRole::User);
}

#[test]
fn later_session_created_sets_mode_but_not_creation_time() {
    let events = vec![
        stamped("s", 1, EventKind::SessionCreated { mode: "ask".into() }),
        stamped("s", 2, EventKind::SessionCreated { mode: "debug".into() }),
    ];
    let session = SessionProjector::new().project_at(&events, at(0)).session.unwrap();
    assert_eq!(session.mode, SessionMode::Debug);
    assert_eq!(session.created_at, at(1_001));
}

#[test]
fn session_without_creation_event_uses_fallback_time() {
    let events = vec![stamped("s", 3, EventKind::ErrorRecorded { message: "e".into() })];
    let result = SessionProjector::new().project_at(&events, at(42));
    let session = result.session.unwrap();
    assert_eq!(session.created_at, at(42));
    assert_eq!(session.updated_at, at(1_003));
    assert_eq!(session.mode, SessionMode::Ask);
    assert_eq!(result.errors, vec!["e"]);
}

#[test]
fn projecting_in_two_parts_agrees_with_projecting_whole() {
    let first = vec![
        stamped("s", 1, EventKind::SessionCreated { mode: "build".into() }),
        stamped("s", 2, EventKind::ErrorRecorded { message: "one".into() }),
    ];
    let second = vec![
        stamped("s", 3, EventKind::ErrorRecorded { message: "two".into() }),
        stamped("s", 4, EventKind::MessageAppended { message_id: MessageId("m".into()), role: "user".into() }),
    ];
    let mut whole = first.clone();
    whole.extend(second.clone());
    let p = SessionProjector::new();
    let a = p.project_at(&first, at(0));
    let b = p.project_at(&second, at(0));
    let w = p.project_at(&whole, at(0));
    let mut errors = a.errors.clone();
    errors.extend(b.errors.clone());
    assert_eq!(w.errors, errors);
    assert_eq!(w.session.as_ref().unwrap().mode, SessionMode::Build);
    assert_eq!(w.session.as_ref().unwrap().messages.len(), 1);
}

#[test]
fn events_of_unknown_version_are_reported_not_applied() {
    let mut future = stamped("s", 2, EventKind::ErrorRecorded { message: "from the future".into() });
    future.version = 2;
    let mut created = stamped("s", 3, EventKind::SessionCreated { mode: "build".into() });
    created.version = 7;
    let events = vec![stamped("s", 1, EventKind::SessionCreated { mode: "plan".into() }), future, created];
    let result = SessionProjector::new().project_at(&events, at(0));
    assert_eq!(
        result.warnings,
        vec!["Unknown event version 2 at event 2", "Unknown event version 7 at event 3"]
    );
    assert!(result.errors.is_empty());
    let session = result.session.unwrap();
    assert_eq!(session.mode, SessionMode::Plan);
    assert_eq!(session.updated_at, at(1_003));
}
