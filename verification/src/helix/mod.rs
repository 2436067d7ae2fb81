//! Helix editor configuration (`config.toml`).
pub mod context;
pub mod editor;
pub mod keys;
pub mod section;
pub mod theme;

pub use context::{toml_bool, toml_str, toml_str_array, HelixConfig, HelixRenderContext};
