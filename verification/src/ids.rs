use vstd::prelude::*;

verus! {

/// Identifier of a session.
#[derive(Debug, PartialEq, Eq, Hash)]
pub struct SessionId(pub String);

/// Identifier of a persisted event.
#[derive(Debug, PartialEq, Eq, Hash)]
pub struct EventId(pub String);

/// Identifier of a message inside a session.
#[derive(Debug, PartialEq, Eq, Hash)]
pub struct MessageId(pub String);

/// Identifier of a tool call.
#[derive(Debug, PartialEq, Eq, Hash)]
pub struct ToolCallId(pub String);

/// Identifier of an approval request.
#[derive(Debug, PartialEq, Eq, Hash)]
pub struct ApprovalId(pub String);

/// Identifier of a call to an LLM provider.
#[derive(Debug, PartialEq, Eq, Hash)]
pub struct ProviderCallId(pub String);

impl Clone for SessionId {
    fn clone(&self) -> (r: Self)
        ensures
            r == *self,
    {
        SessionId(self.0.clone())
    }
}

impl Clone for EventId {
    fn clone(&self) -> (r: Self)
        ensures
            r == *self,
    {
        EventId(self.0.clone())
    }
}

impl Clone for MessageId {
    fn clone(&self) -> (r: Self)
        ensures
            r == *self,
    {
        MessageId(self.0.clone())
    }
}

impl Clone for ToolCallId {
    fn clone(&self) -> (r: Self)
        ensures
            r == *self,
    {
        ToolCallId(self.0.clone())
    }
}

impl Clone for ApprovalId {
    fn clone(&self) -> (r: Self)
        ensures
            r == *self,
    {
        ApprovalId(self.0.clone())
    }
}

impl Clone for ProviderCallId {
    fn clone(&self) -> (r: Self)
        ensures
            r == *self,
    {
        ProviderCallId(self.0.clone())
    }
}

} // verus!
