//! The data layer: settings, providers, conversations and the LLM wire logic.

pub mod config;
pub mod conversation;
pub mod defaults;
pub mod eula;
pub mod llm;
pub mod provider;
pub mod settings;

