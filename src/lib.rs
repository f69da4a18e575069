//! Bootstrap orchestration for a streaming-bot service, together with the
//! `!water` reward command and command aliases.
pub mod aliases;
pub mod bootstrap;
pub mod credential;
pub mod runner;
pub mod text;
pub mod water;
pub mod words;
