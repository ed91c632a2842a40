//! The chat screen: its modals for tool calls, the state of its transcript
//! and input line, and the queue of tool calls.

pub mod ask_modal;
pub mod bash_modal;
pub mod state;
pub mod transcript;

use vstd::prelude::*;

use crate::logic::provider::NamedProvider;
use crate::logic::settings::Settings;

verus! {

/// What the chat screen is started with.
#[derive(Debug, Clone, PartialEq, Eq)]
pub struct ChatScreenConfig {
    pub data_dir: String,
    pub provider: NamedProvider,
    pub settings: Settings,
    pub system_prompt: String,
    pub strict: bool,
    pub initial_request: String,
    pub initial_filename: Option<String>,
    pub hide_previous_messages: bool,
}

} // verus!
