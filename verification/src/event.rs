use vstd::prelude::*;
use crate::ids::{ApprovalId, EventId, MessageId, ProviderCallId, SessionId, ToolCallId};
use crate::time::{now, Timestamp};

verus! {

/// An append-only record of something that happened in a session.
#[derive(Debug, Clone)]
pub struct Event {
    pub id: EventId,
    pub session_id: SessionId,
    pub sequence: u64,
    pub version: u64,
    pub kind: EventKind,
    pub created_at: Timestamp,
}

/// What an event records.
#[derive(Debug, Clone)]
pub enum EventKind {
    SessionCreated { mode: String },
    MessageAppended { message_id: MessageId, role: String },
    ToolCallRequested { tool_call_id: ToolCallId, name: String },
    ToolResultReceived { tool_call_id: ToolCallId, status: String },
    ApprovalRequested { approval_id: ApprovalId, tool_call_id: ToolCallId },
    ApprovalDecided { approval_id: ApprovalId, decision: String },
    ProviderCallStarted { provider_call_id: ProviderCallId, model: String },
    ProviderCallFinished { provider_call_id: ProviderCallId, usage: Option<UsageData> },
    ErrorRecorded { message: String },
    SessionSummaryUpdated { summary: String },
}

/// Token counts reported by a provider call.
#[derive(Debug, Clone, Copy, PartialEq, Eq, Structural)]
pub struct UsageData {
    pub input_tokens: u32,
    pub output_tokens: u32,
}

/// The schema version that new events are written with.
pub const EVENT_VERSION: u64 = 1;

/// A lower-case hexadecimal digit.
pub open spec fn is_lower_hex(c: char) -> bool {
    ('0' <= c && c <= '9') || ('a' <= c && c <= 'f')
}

/// `s` is the hyphenated text of a version 4 UUID: 36 characters, hyphens
/// at positions 8, 13, 18 and 23, lower-case hexadecimal digits elsewhere,
/// and the version digit `4` at position 14.
pub open spec fn is_v4_uuid_text(s: Seq<char>) -> bool {
    &&& s.len() == 36
    &&& forall|i: int|
        0 <= i < 36 ==> if i == 8 || i == 13 || i == 18 || i == 23 {
            #[trigger] s[i] == '-'
        } else {
            is_lower_hex(s[i])
        }
    &&& s[14] == '4'
}

/// Draws a fresh random identifier through `uuid::Uuid::new_v4`, in its
/// hyphenated text form (`to_string`).
///
/// The value is random; the claim is only of its form, which uuid's
/// `LowerHex` formatting and the version bits that `new_v4` sets fix.
#[verifier::external_body]
fn fresh_event_id() -> (id: String)
    ensures
        is_v4_uuid_text(id@),
{
    uuid::Uuid::new_v4().to_string()
}

impl Event {
    /// Builds an event with the given identifier and creation time.
    pub fn with_id(id: EventId, session_id: SessionId, sequence: u64, kind: EventKind, created_at: Timestamp) -> (e: Self)
        ensures
            e.id == id,
            e.session_id == session_id,
            e.sequence == sequence,
            e.version == EVENT_VERSION,
            e.kind == kind,
            e.created_at == created_at,
    {
        Event { id, session_id, sequence, version: EVENT_VERSION, kind, created_at }
    }

    /// Builds an event with a fresh random identifier, stamped with the
    /// current time.
    pub fn new(session_id: SessionId, sequence: u64, kind: EventKind) -> (e: Self)
        ensures
            is_v4_uuid_text(e.id.0@),
            e.session_id == session_id,
            e.sequence == sequence,
            e.version == EVENT_VERSION,
            e.kind == kind,
    {
        let id = EventId(fresh_event_id());
        let created_at = now();
        Event::with_id(id, session_id, sequence, kind, created_at)
    }
}

} // verus!
