use vstd::prelude::*;
use crate::ids::ToolCallId;

verus! {

/// How a tool is offered to the model and run.
#[derive(Debug)]
pub struct ToolDescriptor {
    pub name: String,
    pub description: String,
    pub input_schema: serde_json::Value,
    pub approval_class: ApprovalClass,
    pub isolation_level: IsolationLevel,
    pub cancellation_support: CancellationSupport,
}

/// When a call of the tool needs the user's approval.
#[derive(Debug, Clone, Copy, PartialEq, Eq, Structural)]
pub enum ApprovalClass {
    Never,
    OnMode,
    Always,
}

/// Where a tool runs.
#[derive(Debug, Clone, Copy, PartialEq, Eq, Structural)]
pub enum IsolationLevel {
    InProcess,
    Worktree,
    ChildWorktree,
}

/// Whether a running call of the tool can be cancelled.
#[derive(Debug, Clone, Copy, PartialEq, Eq, Structural)]
pub enum CancellationSupport {
    Unsupported,
    Request,
}

/// A call of a tool requested by the model.
#[derive(Debug)]
pub struct ToolCall {
    pub id: ToolCallId,
    pub name: String,
    pub arguments: serde_json::Value,
}

/// The result of a tool call.
#[derive(Debug, Clone)]
pub struct ToolResult {
    pub id: ToolCallId,
    pub status: ToolStatus,
    pub output: Option<String>,
    pub error: Option<String>,
    pub metadata: Option<ToolMetadata>,
}

/// How a tool call ended.
#[derive(Debug, Clone, Copy, PartialEq, Eq, Structural)]
pub enum ToolStatus {
    Success,
    Error,
    Cancelled,
    Partial,
}

/// Facts recorded about a tool call.
#[derive(Debug, Clone, Copy, PartialEq, Eq, Structural)]
pub struct ToolMetadata {
    pub duration_ms: u64,
    pub redacted_count: u32,
    pub truncated: bool,
}

/// Which tools a subagent may use, and how many may run at once.
#[derive(Debug, Clone)]
pub struct SubagentPolicy {
    pub max_parallel: u32,
    pub allowed_tools: Vec<String>,
    pub blocked_tools: Vec<String>,
}

} // verus!
