use vstd::prelude::*;
use crate::event::{Event, EventKind, EVENT_VERSION};
use crate::ids::MessageId;
use crate::session::{ApprovalMode, Message, MessageRole, Session, SessionMode};
use crate::text::{decimal, push_decimal};
use crate::time::{now, Timestamp};

verus! {

/// The session state rebuilt from an event stream, with the recorded
/// errors and the warnings raised while rebuilding it.
#[derive(Debug)]
pub struct Projection {
    pub session: Option<Session>,
    pub errors: Vec<String>,
    pub warnings: Vec<String>,
}

impl Default for Projection {
    fn default() -> (p: Self)
        ensures
            p.session is None,
            p.errors@.len() == 0,
            p.warnings@.len() == 0,
    {
        Projection { session: None, errors: Vec::new(), warnings: Vec::new() }
    }
}

/// Rebuilds session state from the events of one session.
pub struct SessionProjector;

impl Default for SessionProjector {
    fn default() -> (p: Self) {
        SessionProjector::new()
    }
}

/// The text of each string of `v`.
pub open spec fn texts(v: Seq<String>) -> Seq<Seq<char>> {
    v.map_values(|s: String| s@)
}

/// The session mode that a `SessionCreated` event names, if it names one.
pub open spec fn mode_named(name: Seq<char>) -> Option<SessionMode> {
    if name == "ask"@ {
        Some(SessionMode::Ask)
    } else if name == "plan"@ {
        Some(SessionMode::Plan)
    } else if name == "build"@ {
        Some(SessionMode::Build)
    } else if name == "debug"@ {
        Some(SessionMode::Debug)
    } else {
        None
    }
}

/// The message role that a `MessageAppended` event names, if it names one.
pub open spec fn role_named(name: Seq<char>) -> Option<MessageRole> {
    if name == "user"@ {
        Some(MessageRole::User)
    } else if name == "assistant"@ {
        Some(MessageRole::Assistant)
    } else if name == "system"@ {
        Some(MessageRole::System)
    } else if name == "tool"@ {
        Some(MessageRole::Tool)
    } else {
        None
    }
}

/// The warning raised for a session mode that is not known.
pub open spec fn mode_warning(name: Seq<char>, sequence: u64) -> Seq<char> {
    "Unknown session mode '"@ + name + "' at event "@ + decimal(sequence as nat)
}

/// The warning raised for a message role that is not known.
pub open spec fn role_warning(name: Seq<char>, sequence: u64) -> Seq<char> {
    "Unknown message role '"@ + name + "' at event "@ + decimal(sequence as nat)
}

/// An event is applied to the projection only where it is written in the
/// known event version; any other event is reported by a warning instead.
pub open spec fn known_version(e: Event) -> bool {
    e.version == EVENT_VERSION
}

/// The warning raised for an event written in an unknown version.
pub open spec fn version_warning(version: u64, sequence: u64) -> Seq<char> {
    "Unknown event version "@ + decimal(version as nat) + " at event "@ + decimal(sequence as nat)
}

/// The mode set by the last applied `SessionCreated` event (`Ask` where
/// that event names no known mode, or where there is no such event).
pub open spec fn projected_mode(events: Seq<Event>) -> SessionMode
    decreases events.len(),
{
    if events.len() == 0 {
        SessionMode::Ask
    } else {
        if !known_version(events.last()) {
            projected_mode(events.drop_last())
        } else {
            match events.last().kind {
                EventKind::SessionCreated { mode } => match mode_named(mode@) {
                    Some(m) => m,
                    None => SessionMode::Ask,
                },
                _ => projected_mode(events.drop_last()),
            }
        }
    }
}

/// The creation time of the first applied `SessionCreated` event, if there
/// is one.
pub open spec fn first_creation(events: Seq<Event>) -> Option<Timestamp>
    decreases events.len(),
{
    if events.len() == 0 {
        None
    } else {
        match first_creation(events.drop_last()) {
            Some(t) => Some(t),
            None => if !known_version(events.last()) {
                None
            } else {
                match events.last().kind {
                    EventKind::SessionCreated { .. } => Some(events.last().created_at),
                    _ => None,
                }
            },
        }
    }
}

/// The messages that the applied `MessageAppended` events append, in order: their
/// identifier, role (`User` where the event names no known role) and time.
pub open spec fn projected_messages(events: Seq<Event>) -> Seq<(MessageId, MessageRole, Timestamp)>
    decreases events.len(),
{
    if events.len() == 0 {
        Seq::empty()
    } else {
        let before = projected_messages(events.drop_last());
        let e = events.last();
        if !known_version(e) {
            before
        } else {
            match e.kind {
            EventKind::MessageAppended { message_id, role } => {
                let r = match role_named(role@) {
                    Some(r) => r,
                    None => MessageRole::User,
                };
                before.push((message_id, r, e.created_at))
            },
            _ => before,
        }
        }
    }
}

/// The messages of the applied `ErrorRecorded` events, in order.
pub open spec fn projected_errors(events: Seq<Event>) -> Seq<Seq<char>>
    decreases events.len(),
{
    if events.len() == 0 {
        Seq::empty()
    } else {
        let before = projected_errors(events.drop_last());
        if !known_version(events.last()) {
            before
        } else {
            match events.last().kind {
                EventKind::ErrorRecorded { message } => before.push(message@),
                _ => before,
            }
        }
    }
}

/// One warning for each event written in an unknown version, and for each
/// applied event that names an unknown session mode or message role, in
/// order.
pub open spec fn projected_warnings(events: Seq<Event>) -> Seq<Seq<char>>
    decreases events.len(),
{
    if events.len() == 0 {
        Seq::empty()
    } else {
        let before = projected_warnings(events.drop_last());
        let e = events.last();
        if !known_version(e) {
            before.push(version_warning(e.version, e.sequence))
        } else {
            match e.kind {
            EventKind::SessionCreated { mode } => if mode_named(mode@) is None {
                before.push(mode_warning(mode@, e.sequence))
            } else {
                before
            },
            EventKind::MessageAppended { role, .. } => if role_named(role@) is None {
                before.push(role_warning(role@, e.sequence))
            } else {
                before
            },
            _ => before,
        }
        }
    }
}

/// `messages` are the projected messages `expected`, each with no content.
pub open spec fn messages_are(messages: Seq<Message>, expected: Seq<(MessageId, MessageRole, Timestamp)>) -> bool {
    &&& messages.len() == expected.len()
    &&& forall|i: int|
        0 <= i < messages.len() ==> {
            &&& (#[trigger] messages[i]).id == expected[i].0
            &&& messages[i].role == expected[i].1
            &&& messages[i].created_at == expected[i].2
            &&& messages[i].content@.len() == 0
        }
}

/// `s` is the session projected from the non-empty `events`, where
/// `created_at` stands for its creation time.
pub open spec fn session_projected(s: Session, events: Seq<Event>, created_at: Timestamp) -> bool {
    &&& s.id == events[0].session_id
    &&& s.mode == projected_mode(events)
    &&& s.approval_mode == ApprovalMode::Never
    &&& s.project_path is None
    &&& s.model@ == Seq::<char>::empty()
    &&& messages_are(s.messages@, projected_messages(events))
    &&& s.created_at == created_at
    &&& s.updated_at == events.last().created_at
}

/// The creation time of the session projected from `events`: that of the
/// first `SessionCreated` event, else `fallback`.
pub open spec fn creation_or(events: Seq<Event>, fallback: Timestamp) -> Timestamp {
    match first_creation(events) {
        Some(t) => t,
        None => fallback,
    }
}

/// Projection follows the event stream: the errors, warnings and messages
/// of a stream made of `a` followed by `b` are those of `a` followed by
/// those of `b`; its mode is that of `b` where `b` creates the session
/// again, else that of `a`; and its creation time is that of `a` where `a`
/// creates the session, else that of `b`.
pub proof fn law_projection_of_concatenation(a: Seq<Event>, b: Seq<Event>)
    ensures
        projected_errors(a + b) == projected_errors(a) + projected_errors(b),
        projected_warnings(a + b) == projected_warnings(a) + projected_warnings(b),
        projected_messages(a + b) == projected_messages(a) + projected_messages(b),
        projected_mode(a + b) == (if first_creation(b) is Some {
            projected_mode(b)
        } else {
            projected_mode(a)
        }),
        first_creation(a + b) == (if first_creation(a) is Some {
            first_creation(a)
        } else {
            first_creation(b)
        }),
    decreases b.len(),
{
    if b.len() == 0 {
        assert(a + b =~= a);
        assert(projected_errors(a) + projected_errors(b) =~= projected_errors(a));
        assert(projected_warnings(a) + projected_warnings(b) =~= projected_warnings(a));
        assert(projected_messages(a) + projected_messages(b) =~= projected_messages(a));
    } else {
        let b0 = b.drop_last();
        law_projection_of_concatenation(a, b0);
        assert((a + b).drop_last() =~= a + b0);
        assert((a + b).last() == b.last());
        assert(projected_errors(a + b) =~= projected_errors(a) + projected_errors(b));
        assert(projected_warnings(a + b) =~= projected_warnings(a) + projected_warnings(b));
        assert(projected_messages(a + b) =~= projected_messages(a) + projected_messages(b));
    }
}

/// The names of the session modes and message roles: `ask`, `plan`,
/// `build` and `debug` name the modes `Ask`, `Plan`, `Build` and `Debug`;
/// `user`, `assistant`, `system` and `tool` name the roles `User`,
/// `Assistant`, `System` and `Tool`.
pub proof fn law_known_names()
    ensures
        mode_named("ask"@) == Some(SessionMode::Ask),
        mode_named("plan"@) == Some(SessionMode::Plan),
        mode_named("build"@) == Some(SessionMode::Build),
        mode_named("debug"@) == Some(SessionMode::Debug),
        role_named("user"@) == Some(MessageRole::User),
        role_named("assistant"@) == Some(MessageRole::Assistant),
        role_named("system"@) == Some(MessageRole::System),
        role_named("tool"@) == Some(MessageRole::Tool),
{
    reveal_strlit("ask");
    reveal_strlit("plan");
    reveal_strlit("build");
    reveal_strlit("debug");
    reveal_strlit("user");
    reveal_strlit("assistant");
    reveal_strlit("system");
    reveal_strlit("tool");
    assert("ask"@.len() == 3 && "plan"@.len() == 4 && "build"@.len() == 5 && "debug"@.len() == 5);
    assert("build"@[0] != "debug"@[0]);
    assert("user"@.len() == 4 && "assistant"@.len() == 9 && "system"@.len() == 6 && "tool"@.len() == 4);
    assert("user"@[0] != "tool"@[0]);
}

/// Appending a message event of the known version to any stream appends
/// one message: its identifier, the role its role name names (`user`,
/// `assistant`, `system`, `tool`), and the event's time, raising no
/// warning.
pub proof fn law_message_event_appends_its_role(events: Seq<Event>, e: Event)
    requires
        e.version == EVENT_VERSION,
        e.kind is MessageAppended,
    ensures
        ({
            let (id, role) = match e.kind {
                EventKind::MessageAppended { message_id, role } => (message_id, role@),
                _ => (arbitrary(), arbitrary()),
            };
            &&& role == "user"@ ==> projected_messages(events.push(e)) == projected_messages(events).push(
                (id, MessageRole::User, e.created_at),
            )
            &&& role == "assistant"@ ==> projected_messages(events.push(e)) == projected_messages(events).push(
                (id, MessageRole::Assistant, e.created_at),
            )
            &&& role == "system"@ ==> projected_messages(events.push(e)) == projected_messages(events).push(
                (id, MessageRole::System, e.created_at),
            )
            &&& role == "tool"@ ==> projected_messages(events.push(e)) == projected_messages(events).push(
                (id, MessageRole::Tool, e.created_at),
            )
            &&& (role == "user"@ || role == "assistant"@ || role == "system"@ || role == "tool"@)
                ==> projected_warnings(events.push(e)) == projected_warnings(events)
        }),
{
    law_known_names();
    assert(events.push(e).drop_last() =~= events);
}

/// Appending a session-creation event of the known version to any stream
/// sets the mode its mode name names (`ask`, `plan`, `build`, `debug`),
/// raising no warning, and leaves an earlier creation time in place.
pub proof fn law_creation_event_sets_its_mode(events: Seq<Event>, e: Event)
    requires
        e.version == EVENT_VERSION,
        e.kind is SessionCreated,
    ensures
        ({
            let mode = match e.kind {
                EventKind::SessionCreated { mode } => mode@,
                _ => arbitrary(),
            };
            &&& mode == "ask"@ ==> projected_mode(events.push(e)) == SessionMode::Ask
            &&& mode == "plan"@ ==> projected_mode(events.push(e)) == SessionMode::Plan
            &&& mode == "build"@ ==> projected_mode(events.push(e)) == SessionMode::Build
            &&& mode == "debug"@ ==> projected_mode(events.push(e)) == SessionMode::Debug
            &&& (mode == "ask"@ || mode == "plan"@ || mode == "build"@ || mode == "debug"@)
                ==> projected_warnings(events.push(e)) == projected_warnings(events)
            &&& first_creation(events.push(e)) == (if first_creation(events) is Some {
                first_creation(events)
            } else {
                Some(e.created_at)
            })
        }),
{
    law_known_names();
    assert(events.push(e).drop_last() =~= events);
}

/// Appending an error event of the known version to any stream records its
/// message after the errors already recorded.
pub proof fn law_error_event_records_its_message(events: Seq<Event>, e: Event, message: String)
    requires
        e.version == EVENT_VERSION,
        e.kind == (EventKind::ErrorRecorded { message }),
    ensures
        projected_errors(events.push(e)) == projected_errors(events).push(message@),
        projected_messages(events.push(e)) == projected_messages(events),
        projected_mode(events.push(e)) == projected_mode(events),
{
    assert(events.push(e).drop_last() =~= events);
}

/// An event written in an unknown version changes nothing but the
/// warnings, which gain one naming its version and sequence number.
pub proof fn law_unknown_version_only_warns(events: Seq<Event>, e: Event)
    requires
        e.version != EVENT_VERSION,
    ensures
        projected_errors(events.push(e)) == projected_errors(events),
        projected_messages(events.push(e)) == projected_messages(events),
        projected_mode(events.push(e)) == projected_mode(events),
        first_creation(events.push(e)) == first_creation(events),
        projected_warnings(events.push(e)) == projected_warnings(events).push(
            "Unknown event version "@ + decimal(e.version as nat) + " at event "@ + decimal(e.sequence as nat),
        ),
{
    assert(events.push(e).drop_last() =~= events);
}

/// Parses a session mode name.
fn parse_mode(name: &String) -> (r: Option<SessionMode>)
    ensures
        r == mode_named(name@),
{
    if *name == String::from_str("ask") {
        Some(SessionMode::Ask)
    } else if *name == String::from_str("plan") {
        Some(SessionMode::Plan)
    } else if *name == String::from_str("build") {
        Some(SessionMode::Build)
    } else if *name == String::from_str("debug") {
        Some(SessionMode::Debug)
    } else {
        None
    }
}

/// Parses a message role name.
fn parse_role(name: &String) -> (r: Option<MessageRole>)
    ensures
        r == role_named(name@),
{
    if *name == String::from_str("user") {
        Some(MessageRole::User)
    } else if *name == String::from_str("assistant") {
        Some(MessageRole::Assistant)
    } else if *name == String::from_str("system") {
        Some(MessageRole::System)
    } else if *name == String::from_str("tool") {
        Some(MessageRole::Tool)
    } else {
        None
    }
}

/// Builds the warning for an unknown session mode.
fn unknown_mode_warning(name: &String, sequence: u64) -> (w: String)
    ensures
        w@ == mode_warning(name@, sequence),
{
    let mut w = String::from_str("Unknown session mode '");
    w.append(name.as_str());
    w.append("' at event ");
    push_decimal(&mut w, sequence);
    w
}

/// Builds the warning for an event written in an unknown version.
fn unknown_version_warning(version: u64, sequence: u64) -> (w: String)
    ensures
        w@ == version_warning(version, sequence),
{
    let mut w = String::from_str("Unknown event version ");
    push_decimal(&mut w, version);
    w.append(" at event ");
    push_decimal(&mut w, sequence);
    w
}

/// Builds the warning for an unknown message role.
fn unknown_role_warning(name: &String, sequence: u64) -> (w: String)
    ensures
        w@ == role_warning(name@, sequence),
{
    let mut w = String::from_str("Unknown message role '");
    w.append(name.as_str());
    w.append("' at event ");
    push_decimal(&mut w, sequence);
    w
}

/// What a pass over the events gathers before the session is assembled.
struct Folded {
    mode: SessionMode,
    messages: Vec<Message>,
    created_at: Option<Timestamp>,
    errors: Vec<String>,
    warnings: Vec<String>,
}

/// Folds the events, in order, into the parts of a projection.
fn fold_events(events: &[Event]) -> (f: Folded)
    ensures
        f.mode == projected_mode(events@),
        messages_are(f.messages@, projected_messages(events@)),
        f.created_at == first_creation(events@),
        texts(f.errors@) == projected_errors(events@),
        texts(f.warnings@) == projected_warnings(events@),
{
    let mut mode = SessionMode::Ask;
    let mut messages: Vec<Message> = Vec::new();
    let mut created_at: Option<Timestamp> = None;
    let mut errors: Vec<String> = Vec::new();
    let mut warnings: Vec<String> = Vec::new();
    let n = events.len();
    let mut i: usize = 0;
    assert(events@.take(0) =~= Seq::<Event>::empty());
    while i < n
        invariant
            n == events@.len(),
            i <= n,
            mode == projected_mode(events@.take(i as int)),
            messages_are(messages@, projected_messages(events@.take(i as int))),
            created_at == first_creation(events@.take(i as int)),
            texts(errors@) == projected_errors(events@.take(i as int)),
            texts(warnings@) == projected_warnings(events@.take(i as int)),
        decreases n - i,
    {
        let event = &events[i];
        let ghost prefix = events@.take(i as int);
        let ghost next = events@.take(i + 1);
        assert(next.drop_last() =~= prefix);
        assert(next.last() == events@[i as int]);
        let ghost old_messages = messages@;
        let ghost old_errors = errors@;
        let ghost old_warnings = warnings@;
        if event.version != EVENT_VERSION {
            warnings.push(unknown_version_warning(event.version, event.sequence));
        } else {
        match &event.kind {
            EventKind::SessionCreated { mode: m } => {
                match parse_mode(m) {
                    Some(parsed) => {
                        mode = parsed;
                    },
                    None => {
                        warnings.push(unknown_mode_warning(m, event.sequence));
                        mode = SessionMode::Ask;
                    },
                }
                if created_at.is_none() {
                    created_at = Some(event.created_at);
                }
            },
            EventKind::MessageAppended { message_id, role } => {
                let msg_role = match parse_role(role) {
                    Some(r) => r,
                    None => {
                        warnings.push(unknown_role_warning(role, event.sequence));
                        MessageRole::User
                    },
                };
                messages.push(
                    Message {
                        id: message_id.clone(),
                        role: msg_role,
                        content: Vec::new(),
                        created_at: event.created_at,
                    },
                );
            },
            EventKind::ErrorRecorded { message } => {
                errors.push(message.clone());
            },
            _ => {},
        }
        }
        assert(texts(errors@) =~= projected_errors(next));
        assert(texts(warnings@) =~= projected_warnings(next));
        i = i + 1;
    }
    assert(events@.take(n as int) =~= events@);
    Folded { mode, messages, created_at, errors, warnings }
}

impl SessionProjector {
    pub fn new() -> (p: Self) {
        SessionProjector
    }

    /// Projects `events` as `project` does, with `fallback` as the creation
    /// time of a session that has no `SessionCreated` event.
    pub fn project_at(&self, events: &[Event], fallback: Timestamp) -> (p: Projection)
        ensures
            events@.len() == 0 ==> p.session is None,
            events@.len() > 0 ==> (p.session matches Some(s) && session_projected(s, events@, creation_or(events@, fallback))),
            texts(p.errors@) == projected_errors(events@),
            texts(p.warnings@) == projected_warnings(events@),
    {
        if events.len() == 0 {
            let p = Projection::default();
            assert(texts(p.errors@) =~= Seq::empty());
            assert(texts(p.warnings@) =~= Seq::empty());
            return p;
        }
        let f = fold_events(events);
        let created = match f.created_at {
            Some(t) => t,
            None => fallback,
        };
        Self::assemble(events, f, created)
    }

    /// Rebuilds the state of the session whose events `events` are, in
    /// sequence order. Events written in a version other than the known
    /// one are not applied but reported by a warning. A session with no
    /// `SessionCreated` event is stamped with the current time as its
    /// creation time.
    pub fn project(&self, events: &[Event]) -> (p: Projection)
        ensures
            events@.len() == 0 ==> p.session is None,
            events@.len() > 0 ==> (p.session matches Some(s) && (first_creation(events@) matches Some(t) ==> s.created_at == t)
                && session_projected(s, events@, s.created_at)),
            texts(p.errors@) == projected_errors(events@),
            texts(p.warnings@) == projected_warnings(events@),
    {
        if events.len() == 0 {
            let p = Projection::default();
            assert(texts(p.errors@) =~= Seq::empty());
            assert(texts(p.warnings@) =~= Seq::empty());
            return p;
        }
        let f = fold_events(events);
        let created = match f.created_at {
            Some(t) => t,
            None => now(),
        };
        Self::assemble(events, f, created)
    }

    /// Puts the folded parts of a non-empty event stream together.
    fn assemble(events: &[Event], f: Folded, created: Timestamp) -> (p: Projection)
        requires
            events@.len() > 0,
            f.mode == projected_mode(events@),
            messages_are(f.messages@, projected_messages(events@)),
            texts(f.errors@) == projected_errors(events@),
            texts(f.warnings@) == projected_warnings(events@),
        ensures
            p.session matches Some(s) && session_projected(s, events@, created),
            p.errors@ == f.errors@,
            p.warnings@ == f.warnings@,
    {
        let last = events.len() - 1;
        let session = Session {
            id: events[0].session_id.clone(),
            mode: f.mode,
            approval_mode: ApprovalMode::Never,
            project_path: None,
            model: String::new(),
            messages: f.messages,
            created_at: created,
            updated_at: events[last].created_at,
        };
        Projection { session: Some(session), errors: f.errors, warnings: f.warnings }
    }
}

} // verus!
