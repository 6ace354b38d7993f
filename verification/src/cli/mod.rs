//! Command-line surface: the `init` template, the dispatch decisions
//! (exit codes, error and diagnostic texts, timestamps) and the init
//! error type.

pub mod calendar;
pub mod dispatch;
pub mod error;
pub mod init;
