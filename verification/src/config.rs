//! Configuration model and color parsing.

pub mod colors;
pub mod config;

pub use colors::{parse_color, parse_style, ColorScheme};
pub use config::{Colors, Config, KeyBindings, KeyMap, Settings};
