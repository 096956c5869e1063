//! The application shell state and its event model.

pub mod app;

pub use app::{App, Event};
