//! Vulcan agent core: domain types, the session projector, the tool
//! registry, configuration defaults and the decisions of the event store.
pub mod ids;
pub mod time;
pub mod json;
pub mod session;
pub mod event;
pub mod text;
pub mod projector;
pub mod error;
pub mod storage;
pub mod migration;
pub mod config;
pub mod state;
pub mod skills;
pub mod tools;
pub mod registry;
pub mod llm;
pub mod settings;
