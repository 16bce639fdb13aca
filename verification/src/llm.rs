use vstd::prelude::*;
use crate::error::LlmError;
use crate::event::UsageData;
use crate::session::Message;

verus! {

/// A completion request sent to an LLM provider.
#[derive(Debug)]
pub struct ProviderRequest {
    pub model: String,
    pub messages: Vec<Message>,
}

/// A provider's answer to a completion request.
#[derive(Debug)]
pub struct ProviderResponse {
    pub message: Message,
    pub usage: Option<UsageData>,
}

/// A backend that completes conversations.
pub trait LlmProvider: Send + Sync {
    /// Asks the provider for the next assistant message.
    fn complete(&self, request: ProviderRequest) -> Result<ProviderResponse, LlmError>;

    /// Cancels a completion in flight; by default there is nothing to
    /// cancel, and it succeeds.
    fn cancel(&self) -> (r: Result<(), LlmError>)
        default_ensures
            r is Ok,
    {
        Ok(())
    }
}

/// A provider for OpenAI-compatible endpoints.
pub struct OpenAiProvider;

impl LlmProvider for OpenAiProvider {
    /// Not implemented yet: every request fails with a provider error.
    fn complete(&self, _request: ProviderRequest) -> (r: Result<ProviderResponse, LlmError>)
        ensures
            r matches Err(LlmError::Provider(m)) && m@ == "Not implemented"@,
    {
        Err(LlmError::Provider(String::from_str("Not implemented")))
    }
}

} // verus!
