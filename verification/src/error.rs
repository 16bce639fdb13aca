use vstd::prelude::*;

verus! {

/// Renders a `serde_json::Error` through its `Display` impl.
///
/// Nothing is claimed of the text: an error that wraps an I/O error shows
/// the text of that error, which depends on the system and its locale.
#[verifier::external_body]
fn json_error_text(e: &serde_json::Error) -> (s: String) {
    e.to_string()
}

/// Renders a `std::io::Error` through its `Display` impl.
///
/// Nothing is claimed of the text: it comes from the system (and its
/// locale) or from the error's payload.
#[verifier::external_body]
fn io_error_text(e: &std::io::Error) -> (s: String) {
    e.to_string()
}

/// `prefix` followed by `detail`.
fn prefixed(prefix: &str, detail: &str) -> (s: String)
    ensures
        s@ == prefix@ + detail@,
{
    let mut s = String::from_str(prefix);
    s.append(detail);
    s
}

/// Errors of the core domain.
#[derive(Debug)]
pub enum CoreError {
    Validation(String),
    NotFound(String),
    Conflict(String),
    Serialization(serde_json::Error),
    Internal(String),
}

/// `text` is the message of `e`. The message of a serialization error is
/// its prefix followed by whatever the JSON error displays as.
pub open spec fn core_error_text(e: CoreError, text: Seq<char>) -> bool {
    match e {
        CoreError::Validation(s) => text == "Validation error: "@ + s@,
        CoreError::NotFound(s) => text == "Not found: "@ + s@,
        CoreError::Conflict(s) => text == "Conflict: "@ + s@,
        CoreError::Serialization(_) => exists|d: Seq<char>| text == "Serialization error: "@ + d,
        CoreError::Internal(s) => text == "Internal error: "@ + s@,
    }
}

impl CoreError {
    /// The human-readable text of the error.
    pub fn message(&self) -> (m: String)
        ensures
            core_error_text(*self, m@),
    {
        match self {
            CoreError::Validation(s) => prefixed("Validation error: ", s.as_str()),
            CoreError::NotFound(s) => prefixed("Not found: ", s.as_str()),
            CoreError::Conflict(s) => prefixed("Conflict: ", s.as_str()),
            CoreError::Serialization(j) => {
                let detail = json_error_text(j);
                let m = prefixed("Serialization error: ", detail.as_str());
                assert(m@ == "Serialization error: "@ + detail@);
                m
            },
            CoreError::Internal(s) => prefixed("Internal error: ", s.as_str()),
        }
    }
}

/// Errors of the event store.
#[derive(Debug)]
pub enum StorageError {
    Database(String),
    Serialization(String),
    Conflict(String),
}

pub open spec fn storage_error_text(e: StorageError) -> Seq<char> {
    match e {
        StorageError::Database(s) => "Database error: "@ + s@,
        StorageError::Serialization(s) => "Serialization error: "@ + s@,
        StorageError::Conflict(s) => "Conflict: "@ + s@,
    }
}

impl StorageError {
    /// The human-readable text of the error.
    pub fn message(&self) -> (m: String)
        ensures
            m@ == storage_error_text(*self),
    {
        match self {
            StorageError::Database(s) => prefixed("Database error: ", s.as_str()),
            StorageError::Serialization(s) => prefixed("Serialization error: ", s.as_str()),
            StorageError::Conflict(s) => prefixed("Conflict: ", s.as_str()),
        }
    }
}

/// Errors of the server.
#[derive(Debug)]
pub enum ServerError {
    Config(String),
    Storage(StorageError),
    Io(std::io::Error),
    Internal(String),
}

/// `text` is the message of `e`. The message of an I/O error is its
/// prefix followed by whatever the I/O error displays as.
pub open spec fn server_error_text(e: ServerError, text: Seq<char>) -> bool {
    match e {
        ServerError::Config(s) => text == "Config error: "@ + s@,
        ServerError::Storage(s) => text == "Storage error: "@ + storage_error_text(s),
        ServerError::Io(_) => exists|d: Seq<char>| text == "Io error: "@ + d,
        ServerError::Internal(s) => text == "Internal error: "@ + s@,
    }
}

impl ServerError {
    /// The human-readable text of the error.
    pub fn message(&self) -> (m: String)
        ensures
            server_error_text(*self, m@),
    {
        match self {
            ServerError::Config(s) => prefixed("Config error: ", s.as_str()),
            ServerError::Storage(s) => {
                let detail = s.message();
                prefixed("Storage error: ", detail.as_str())
            },
            ServerError::Io(io) => {
                let detail = io_error_text(io);
                let m = prefixed("Io error: ", detail.as_str());
                assert(m@ == "Io error: "@ + detail@);
                m
            },
            ServerError::Internal(s) => prefixed("Internal error: ", s.as_str()),
        }
    }
}

/// Errors of session recall.
#[derive(Debug)]
pub enum RecallError {
    Storage(StorageError),
    NotFound(String),
    Internal(String),
}

pub open spec fn recall_error_text(e: RecallError) -> Seq<char> {
    match e {
        RecallError::Storage(s) => "Storage error: "@ + storage_error_text(s),
        RecallError::NotFound(s) => "Not found: "@ + s@,
        RecallError::Internal(s) => "Internal error: "@ + s@,
    }
}

impl RecallError {
    /// The human-readable text of the error.
    pub fn message(&self) -> (m: String)
        ensures
            m@ == recall_error_text(*self),
    {
        match self {
            RecallError::Storage(s) => {
                let detail = s.message();
                prefixed("Storage error: ", detail.as_str())
            },
            RecallError::NotFound(s) => prefixed("Not found: ", s.as_str()),
            RecallError::Internal(s) => prefixed("Internal error: ", s.as_str()),
        }
    }
}

/// Errors of the skills loader.
#[derive(Debug)]
pub enum SkillError {
    NotFound(String),
    Parse(String),
    Path(String),
    Internal(String),
}

pub open spec fn skill_error_text(e: SkillError) -> Seq<char> {
    match e {
        SkillError::NotFound(s) => "Not found: "@ + s@,
        SkillError::Parse(s) => "Parse error: "@ + s@,
        SkillError::Path(s) => "Path error: "@ + s@,
        SkillError::Internal(s) => "Internal error: "@ + s@,
    }
}

impl SkillError {
    /// The human-readable text of the error.
    pub fn message(&self) -> (m: String)
        ensures
            m@ == skill_error_text(*self),
    {
        match self {
            SkillError::NotFound(s) => prefixed("Not found: ", s.as_str()),
            SkillError::Parse(s) => prefixed("Parse error: ", s.as_str()),
            SkillError::Path(s) => prefixed("Path error: ", s.as_str()),
            SkillError::Internal(s) => prefixed("Internal error: ", s.as_str()),
        }
    }
}

/// Errors of the guardrails.
#[derive(Debug)]
pub enum GuardrailError {
    Denied(String),
    ApprovalRequired(String),
    Internal(String),
}

pub open spec fn guardrail_error_text(e: GuardrailError) -> Seq<char> {
    match e {
        GuardrailError::Denied(s) => "Denied: "@ + s@,
        GuardrailError::ApprovalRequired(s) => "Approval required: "@ + s@,
        GuardrailError::Internal(s) => "Internal error: "@ + s@,
    }
}

impl GuardrailError {
    /// The human-readable text of the error.
    pub fn message(&self) -> (m: String)
        ensures
            m@ == guardrail_error_text(*self),
    {
        match self {
            GuardrailError::Denied(s) => prefixed("Denied: ", s.as_str()),
            GuardrailError::ApprovalRequired(s) => prefixed("Approval required: ", s.as_str()),
            GuardrailError::Internal(s) => prefixed("Internal error: ", s.as_str()),
        }
    }
}

/// Errors of the tool registry.
#[derive(Debug)]
pub enum ToolError {
    Conflict(String),
}

pub open spec fn tool_error_text(e: ToolError) -> Seq<char> {
    match e {
        ToolError::Conflict(s) => "Conflict: "@ + s@,
    }
}

impl ToolError {
    /// The human-readable text of the error.
    pub fn message(&self) -> (m: String)
        ensures
            m@ == tool_error_text(*self),
    {
        match self {
            ToolError::Conflict(s) => prefixed("Conflict: ", s.as_str()),
        }
    }
}

/// Errors of an LLM provider.
#[derive(Debug)]
pub enum LlmError {
    Provider(String),
}

pub open spec fn llm_error_text(e: LlmError) -> Seq<char> {
    match e {
        LlmError::Provider(s) => "Provider error: "@ + s@,
    }
}

impl LlmError {
    /// The human-readable text of the error.
    pub fn message(&self) -> (m: String)
        ensures
            m@ == llm_error_text(*self),
    {
        match self {
            LlmError::Provider(s) => prefixed("Provider error: ", s.as_str()),
        }
    }
}

} // verus!
