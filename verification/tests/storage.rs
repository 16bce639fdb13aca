use vulcan_agent::error::StorageError;
use vulcan_agent::event::{Event, EventKind, UsageData};
use vulcan_agent::ids::{ApprovalId, EventId, MessageId, ProviderCallId, SessionId, ToolCallId};
use vulcan_agent::migration::pending_migrations;
use vulcan_agent::storage::{event_from_row, event_type_name, integer_column, resolve_append, timestamp_column};
use vulcan_agent::time::Timestamp;

fn event(id: &str, session: &str, sequence: u64) -> Event {
    Event::with_id(
        EventId(id.into()),
        SessionId(session.into()),
        sequence,
        EventKind::SessionCreated { mode: "build".into() },
        Timestamp { secs: 0, nanos: 0 },
    )
}

#[test]
fn fresh_insert_is_accepted() {
    assert!(resolve_append(&event("e1", "s", 1), 1, None).is_ok());
}

#[test]
fn retried_append_of_the_same_event_is_accepted() {
    assert!(resolve_append(&event("e1", "s", 1), 0, Some("e1".into())).is_ok());
}

#[test]
fn conflicting_sequence_is_refused_with_its_message() {
    let err = resolve_append(&event("e2", "sess-conflict", 1), 0, Some("e1".into())).unwrap_err();
    match err {
        StorageError::Conflict(m) => {
            assert_eq!(m, "Event sequence 1 already exists for session sess-conflict")
        }
        other => panic!("unexpected error: {other:?}"),
    }
    let err = resolve_append(&event("e2", "s", 18446744073709551615), 0, None).unwrap_err();
    assert!(matches!(err, StorageError::Conflict(m) if m == "Event sequence 18446744073709551615 already exists for session s"));
}

#[test]
fn event_type_names() {
    let tc = || ToolCallId("tc".into());
    let kinds = vec![
        (EventKind::SessionCreated { mode: "ask".into() }, "session_created"),
        (EventKind::MessageAppended { message_id: MessageId("m".into()), role: "user".into() }, "message_appended"),
        (EventKind::ToolCallRequested { tool_call_id: tc(), name: "read".into() }, "tool_call_requested"),
        (EventKind::ToolResultReceived { tool_call_id: tc(), status: "ok".into() }, "tool_result_received"),
        (EventKind::ApprovalRequested { approval_id: ApprovalId("a".into()), tool_call_id: tc() }, "approval_requested"),
        (EventKind::ApprovalDecided { approval_id: ApprovalId("a".into()), decision: "yes".into() }, "approval_decided"),
        (
            EventKind::ProviderCallStarted { provider_call_id: ProviderCallId("p".into()), model: "m".into() },
            "provider_call_started",
        ),
        (
            EventKind::ProviderCallFinished {
                provider_call_id: ProviderCallId("p".into()),
                usage: Some(UsageData { input_tokens: 1, output_tokens: 2 }),
            },
            "provider_call_finished",
        ),
        (EventKind::ErrorRecorded { message: "e".into() }, "error_recorded"),
        (EventKind::SessionSummaryUpdated { summary: "s".into() }, "session_summary_updated"),
    ];
    for (kind, name) in &kinds {
        assert_eq!(event_type_name(kind), *name);
    }
}

#[test]
fn pending_migrations_from_empty_store() {
    let plan = pending_migrations(3, 0);
    assert_eq!(plan, vec![(0, 1), (1, 2), (2, 3)]);
}

#[test]
fn pending_migrations_skip_applied_versions() {
    assert_eq!(pending_migrations(5, 3), vec![(3, 4), (4, 5)]);
    assert_eq!(pending_migrations(5, -2), vec![(0, 1), (1, 2), (2, 3), (3, 4), (4, 5)]);
}

#[test]
fn rerunning_migrations_applies_nothing() {
    assert!(pending_migrations(15, 15).is_empty());
    assert!(pending_migrations(15, 40).is_empty());
    let plan = pending_migrations(15, 2);
    assert_eq!(plan.last(), Some(&(14, 15)));
}

#[test]
fn timestamps_are_stored_as_rfc3339_and_read_back() {
    let t = Timestamp { secs: 1_767_225_601, nanos: 500 };
    let text = timestamp_column(t).unwrap();
    assert_eq!(text, "2026-01-01T00:00:01.000000500+00:00");
    let e = event_from_row(
        "e1".into(),
        "s".into(),
        3,
        1,
        EventKind::ErrorRecorded { message: "m".into() },
        &text,
    )
    .unwrap();
    assert_eq!(e.created_at, t);
    assert_eq!(e.sequence, 3);
    assert_eq!(e.version, 1);
    assert_eq!(e.id, EventId("e1".into()));
    assert_eq!(e.session_id, SessionId("s".into()));
}

#[test]
fn stored_times_read_back_across_the_range() {
    for t in [
        Timestamp { secs: 0, nanos: 0 },
        Timestamp { secs: 1_767_225_601, nanos: 0 },
        Timestamp { secs: 1_767_225_601, nanos: 1_000_000 },
        Timestamp { secs: 1_767_225_601, nanos: 999_999_999 },
        Timestamp { secs: 253_402_300_799, nanos: 123_456_000 },
    ] {
        let text = timestamp_column(t).unwrap();
        let e = event_from_row("e".into(), "s".into(), 1, 1, EventKind::SessionCreated { mode: "ask".into() }, &text)
            .unwrap();
        assert_eq!(e.created_at, t);
    }
}

#[test]
fn offsets_are_read_as_the_same_instant() {
    let e = event_from_row("e".into(), "s".into(), 1, 1, EventKind::ErrorRecorded { message: "m".into() }, "2026-01-01T02:00:00+02:00")
        .unwrap();
    assert_eq!(e.created_at, Timestamp { secs: 1_767_225_600, nanos: 0 });
}

#[test]
fn bad_rows_are_refused() {
    let kind = || EventKind::ErrorRecorded { message: "m".into() };
    let msg = |r: Result<Event, StorageError>| match r {
        Err(StorageError::Serialization(m)) => m,
        other => panic!("unexpected: {other:?}"),
    };
    assert_eq!(msg(event_from_row("e".into(), "s".into(), -1, 1, kind(), "2026-01-01T00:00:00Z")), "negative sequence");
    assert_eq!(msg(event_from_row("e".into(), "s".into(), 1, -1, kind(), "2026-01-01T00:00:00Z")), "negative version");
    assert_eq!(msg(event_from_row("e".into(), "s".into(), 1, 1, kind(), "yesterday")), "invalid timestamp: yesterday");
}

#[test]
fn column_integers_and_out_of_range_timestamps() {
    assert_eq!(integer_column(7).unwrap(), 7);
    assert_eq!(integer_column(i64::MAX as u64).unwrap(), i64::MAX);
    assert!(matches!(integer_column(u64::MAX), Err(StorageError::Serialization(m)) if m == "integer out of range"));
    assert!(matches!(timestamp_column(Timestamp { secs: i64::MAX, nanos: 0 }), Err(StorageError::Serialization(m)) if m == "timestamp out of range"));
}
