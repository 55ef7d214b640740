//! A cancelable timer registry in the style of `setInterval` / `setTimeout`.
//!
//! The registry maps timer ids to the tokio tasks that run them ([`registry`]),
//! and every timer task follows a small plan of steps ([`task`]). The tasks
//! themselves are spawned and driven by the caller's async runtime.

pub mod handle;
pub mod registry;
pub mod task;
