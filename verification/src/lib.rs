//! Resolution of the `sight` language server for the Zed editor.
//!
//! The library decides which release asset a platform needs, where it is kept
//! on disk, where it is fetched from, and in which order the editor has to be
//! asked for what. It performs no input or output itself: every decision is a
//! function from what is known so far to the next request to the editor.

pub mod command;
pub mod error;
pub mod host;
pub mod laws;
pub mod platform;
pub mod release;
pub mod resolver;
pub mod step;
