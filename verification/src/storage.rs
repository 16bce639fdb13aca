use vstd::prelude::*;
use crate::error::StorageError;
use crate::event::{Event, EventKind};
use crate::ids::{EventId, SessionId};
use crate::time::{format_rfc3339, parse_rfc3339, rfc3339_instant, rfc3339_text, storable_instant, Timestamp};
use crate::text::{decimal, push_decimal};

verus! {

/// The label under which events of each kind are stored.
pub open spec fn event_type_label(kind: EventKind) -> Seq<char> {
    match kind {
        EventKind::SessionCreated { .. } => "session_created"@,
        EventKind::MessageAppended { .. } => "message_appended"@,
        EventKind::ToolCallRequested { .. } => "tool_call_requested"@,
        EventKind::ToolResultReceived { .. } => "tool_result_received"@,
        EventKind::ApprovalRequested { .. } => "approval_requested"@,
        EventKind::ApprovalDecided { .. } => "approval_decided"@,
        EventKind::ProviderCallStarted { .. } => "provider_call_started"@,
        EventKind::ProviderCallFinished { .. } => "provider_call_finished"@,
        EventKind::ErrorRecorded { .. } => "error_recorded"@,
        EventKind::SessionSummaryUpdated { .. } => "session_summary_updated"@,
    }
}

/// The label stored in the `event_type` column for an event of this kind.
pub fn event_type_name(kind: &EventKind) -> (s: &'static str)
    ensures
        s@ == event_type_label(*kind),
{
    match kind {
        EventKind::SessionCreated { .. } => "session_created",
        EventKind::MessageAppended { .. } => "message_appended",
        EventKind::ToolCallRequested { .. } => "tool_call_requested",
        EventKind::ToolResultReceived { .. } => "tool_result_received",
        EventKind::ApprovalRequested { .. } => "approval_requested",
        EventKind::ApprovalDecided { .. } => "approval_decided",
        EventKind::ProviderCallStarted { .. } => "provider_call_started",
        EventKind::ProviderCallFinished { .. } => "provider_call_finished",
        EventKind::ErrorRecorded { .. } => "error_recorded",
        EventKind::SessionSummaryUpdated { .. } => "session_summary_updated",
    }
}

/// The message of the conflict raised when another event already holds the
/// sequence number of `event` in its session.
pub open spec fn sequence_conflict_text(event: Event) -> Seq<char> {
    "Event sequence "@ + decimal(event.sequence as nat) + " already exists for session "@
        + event.session_id.0@
}

/// Whether an append of `event` succeeds, given how many rows the
/// insert-or-ignore of the event added (`inserted`) and, where it added
/// none, the identifier of the event already stored at the same session and
/// sequence number (`existing`).
pub open spec fn append_accepted(event: Event, inserted: usize, existing: Option<String>) -> bool {
    inserted != 0 || (existing matches Some(id) && id@ == event.id.0@)
}

/// Decides the outcome of appending `event` once its insert has run.
///
/// An append that added the row succeeds. One that added nothing succeeds
/// only where the row already there is this very event (a retried append);
/// where another event holds the sequence number, or the insert was
/// ignored for another reason, it is a conflict and the transaction must
/// not be committed.
pub fn resolve_append(event: &Event, inserted: usize, existing: Option<String>) -> (r: Result<(), StorageError>)
    ensures
        r is Ok <==> append_accepted(*event, inserted, existing),
        r matches Err(e) ==> (e matches StorageError::Conflict(m) && m@ == sequence_conflict_text(*event)),
{
    if inserted != 0 {
        return Ok(());
    }
    match existing {
        Some(id) => {
            if id == event.id.0 {
                return Ok(());
            }
        },
        None => {},
    }
    let mut m = String::from_str("Event sequence ");
    push_decimal(&mut m, event.sequence);
    m.append(" already exists for session ");
    m.append(event.session_id.0.as_str());
    Err(StorageError::Conflict(m))
}

/// The value of an unsigned counter as stored in an integer column.
pub fn integer_column(n: u64) -> (r: Result<i64, StorageError>)
    ensures
        r is Ok <==> n <= i64::MAX,
        r matches Ok(v) ==> v == n,
        r matches Err(e) ==> (e matches StorageError::Serialization(m) && m@ == "integer out of range"@),
{
    if n <= 9223372036854775807u64 {
        Ok(n as i64)
    } else {
        Err(StorageError::Serialization(String::from_str("integer out of range")))
    }
}

/// The text stored in a `created_at` column for the instant `t`.
pub fn timestamp_column(t: Timestamp) -> (r: Result<String, StorageError>)
    ensures
        r is Ok <==> rfc3339_text(t.secs, t.nanos) is Some,
        r matches Ok(s) ==> rfc3339_text(t.secs, t.nanos) == Some(s@),
        storable_instant(t) ==> r is Ok,
        r matches Ok(s) ==> (storable_instant(t) ==> rfc3339_instant(s@) == Some((t.secs, t.nanos))),
        r matches Err(e) ==> (e matches StorageError::Serialization(m) && m@ == "timestamp out of range"@),
{
    match format_rfc3339(t) {
        Some(s) => Ok(s),
        None => Err(StorageError::Serialization(String::from_str("timestamp out of range"))),
    }
}

/// The message of the error raised for a stored row that does not make an
/// event.
pub open spec fn row_error_text(sequence: i64, version: i64, created_at: Seq<char>) -> Seq<char> {
    if sequence < 0 {
        "negative sequence"@
    } else if version < 0 {
        "negative version"@
    } else {
        "invalid timestamp: "@ + created_at
    }
}

/// Rebuilds an event from the columns of its stored row and its decoded
/// payload. The row is refused where a counter is negative or the stored
/// time is not RFC 3339 text.
pub fn event_from_row(
    id: String,
    session_id: String,
    sequence: i64,
    version: i64,
    kind: EventKind,
    created_at: &str,
) -> (r: Result<Event, StorageError>)
    ensures
        r is Ok <==> (sequence >= 0 && version >= 0 && rfc3339_instant(created_at@) is Some),
        r matches Ok(e) ==> {
            &&& e.id.0 == id
            &&& e.session_id.0 == session_id
            &&& e.sequence == sequence
            &&& e.version == version
            &&& e.kind == kind
            &&& rfc3339_instant(created_at@) == Some((e.created_at.secs, e.created_at.nanos))
        },
        r matches Err(e) ==> (e matches StorageError::Serialization(m) && m@ == row_error_text(
            sequence,
            version,
            created_at@,
        )),
{
    if sequence < 0 {
        return Err(StorageError::Serialization(String::from_str("negative sequence")));
    }
    if version < 0 {
        return Err(StorageError::Serialization(String::from_str("negative version")));
    }
    match parse_rfc3339(created_at) {
        Some(t) => Ok(
            Event {
                id: EventId(id),
                session_id: SessionId(session_id),
                sequence: sequence as u64,
                version: version as u64,
                kind,
                created_at: t,
            },
        ),
        None => {
            let mut m = String::from_str("invalid timestamp: ");
            m.append(created_at);
            Err(StorageError::Serialization(m))
        },
    }
}

/// Appending is idempotent: appending an event that is already stored (its
/// insert is ignored, and the row at its sequence number is itself)
/// succeeds without adding anything.
pub proof fn law_append_retry_succeeds(event: Event, stored: String)
    requires
        stored@ == event.id.0@,
    ensures
        append_accepted(event, 0, Some(stored)),
{
}

/// An append whose sequence number is held by another event of the session
/// is refused.
pub proof fn law_append_conflicting_sequence_refused(event: Event, stored: String)
    requires
        stored@ != event.id.0@,
    ensures
        !append_accepted(event, 0, Some(stored)),
{
}

/// An insert that added the event's row always succeeds, whatever else is
/// stored.
pub proof fn law_inserted_append_succeeds(event: Event, inserted: usize, existing: Option<String>)
    requires
        inserted > 0,
    ensures
        append_accepted(event, inserted, existing),
{
}

/// An append whose insert added nothing, where no row holds its session and
/// sequence number, stored nothing and is refused.
pub proof fn law_unstored_append_refused(event: Event)
    ensures
        !append_accepted(event, 0, None),
{
}

} // verus!
