use vstd::prelude::*;
use crate::config::ServerConfig;
use crate::error::CoreError;

verus! {

/// The state shared by the server's handlers.
#[derive(Debug)]
pub struct AppState {
    pub config: ServerConfig,
}

impl AppState {
    /// Builds the application state around `config`.
    pub fn new(config: ServerConfig) -> (r: Result<Self, CoreError>)
        ensures
            r matches Ok(s) && s.config == config,
    {
        Ok(AppState { config })
    }
}

} // verus!
