//! The decisions of the program around the library: the chat loop's steps,
//! the agreement prompt and the line prompts.

pub mod chat;
pub mod eula;
pub mod prompts;
