//! A declarative browser-automation interpreter.
//!
//! A task is a named, ordered list of actions. Running it is a conversation
//! with a browser session: the library decides which [`Step`] the session
//! performs next and interprets the [`Reply`] it gets back. Everything that
//! touches a real browser lives with the caller, who feeds the replies in.

pub mod task;
pub mod session;
pub mod dispatch;
pub mod lifecycle;

pub use task::{Action, ScrapingTask};
pub use session::{ExecutionError, Reply, Step};
pub use dispatch::{begin, resume, Progress, Stage, LOGIN_SETTLE_MS};
pub use lifecycle::{Phase, TaskRun};
