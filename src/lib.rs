//! A prompt renderer for interactive shells, together with the bookkeeping of
//! a caching daemon that keeps one worker per (directory, shell) pair and
//! answers each prompt request within a bounded time.

pub mod color;
pub mod text;
pub mod shell;
pub mod escape;
pub mod line;
pub mod buffer;
pub mod protocol;
pub mod worker;
pub mod registry;
pub mod daemon;
pub mod client;
pub mod git;
pub mod paths;
pub mod due;
pub mod error;
