//! Ghostty terminal configuration (`~/.config/ghostty/config`).
pub mod color;
pub mod context;
pub mod cursor;
pub mod font;
pub mod keybind;
pub mod misc;
pub mod mouse;
pub mod output;
pub mod platform;
pub mod section;
pub mod shell;
pub mod terminal;
pub mod window;

pub use context::{GhosttyConfig, GhosttyConfigTree, GhosttyRenderContext};
