//! The tools the model can call: `Bash` and `AskUser`.

pub mod ask;
pub mod bash;
