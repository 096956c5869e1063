//! The screens and the stack that owns them.

pub mod diff_view;
pub mod help_view;
pub mod main_view;
pub mod manager;
pub mod status_view;
pub mod view;

pub use diff_view::{DiffRequest, DiffSource, DiffView};
pub use help_view::HelpView;
pub use main_view::{CommitRow, MainView, SearchMode};
pub use manager::{AnyView, StackError, StackOp, ViewManager};
pub use status_view::{DisplayItem, MutationRequest, Section, StatusView};
pub use view::{Action, Key, KeyPress, ViewType};
