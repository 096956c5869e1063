//! A terminal dashboard over a version-control repository: a stack of
//! views (history, diff, status, help) driven by a synchronous
//! update/draw cycle, with long-running repository queries running in
//! the background and reporting back through message channels.
//!
//! This crate holds the verified core: the view-stack navigation engine,
//! the channel bridge each view polls, the commit-stream chunking, the
//! search filter, and the display models the views build. The terminal,
//! the event loop and the repository backend drive it from outside.

pub mod channel;
pub mod config;
pub mod git;
pub mod strutil;
pub mod text;
pub mod ui;
pub mod views;
