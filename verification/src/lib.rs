//! Nitro: the verified core of a command-line assistant that turns natural
//! language requests into shell commands.

pub mod app;
pub mod cli;
pub mod console;
pub mod logic;
pub mod screens;
pub mod text;
pub mod tools;
