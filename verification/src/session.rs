use vstd::prelude::*;
use crate::ids::{MessageId, SessionId};
use crate::time::Timestamp;

verus! {

/// The projected state of a session.
#[derive(Debug)]
pub struct Session {
    pub id: SessionId,
    pub mode: SessionMode,
    pub approval_mode: ApprovalMode,
    pub project_path: Option<String>,
    pub model: String,
    pub messages: Vec<Message>,
    pub created_at: Timestamp,
    pub updated_at: Timestamp,
}

/// Where the git worktree of a session lives and what it holds.
#[derive(Debug, Clone)]
pub struct WorktreeMetadata {
    pub source_project_path: String,
    pub worktree_path: String,
    pub head_revision: String,
    pub dirty_summary: Option<String>,
}

/// How the agent may act in a session.
#[derive(Debug, Clone, Copy, PartialEq, Eq, Structural)]
pub enum SessionMode {
    Ask,
    Plan,
    Build,
    Debug,
}

/// When tool calls need the user's approval.
#[derive(Debug, Clone, Copy, PartialEq, Eq, Structural)]
pub enum ApprovalMode {
    Never,
    OnMode,
    Always,
}

impl Default for SessionMode {
    fn default() -> (m: Self)
        ensures
            m == SessionMode::Ask,
    {
        SessionMode::Ask
    }
}

impl Default for ApprovalMode {
    fn default() -> (m: Self)
        ensures
            m == ApprovalMode::Never,
    {
        ApprovalMode::Never
    }
}

/// One message of a conversation.
#[derive(Debug)]
pub struct Message {
    pub id: MessageId,
    pub role: MessageRole,
    pub content: Vec<ContentBlock>,
    pub created_at: Timestamp,
}

/// Who wrote a message.
#[derive(Debug, Clone, Copy, PartialEq, Eq, Structural)]
pub enum MessageRole {
    User,
    Assistant,
    System,
    Tool,
}

/// A piece of message content.
#[derive(Debug)]
pub enum ContentBlock {
    Text { text: String },
    ToolCall { id: String, name: String, arguments: serde_json::Value },
    ToolResult { id: String, name: String, content: String },
}

} // verus!
