//! Hyprland compositor configuration (`hyprland.conf`).
pub mod animation;
pub mod bind;
pub mod context;
pub mod environment;
pub mod exec;
pub mod layout;
pub mod monitor;
pub mod output;
pub mod permission;
pub mod section;
pub mod variable;
pub mod window_rule;
pub mod workspace;
pub mod xwayland;

pub use context::{HyprlandConfig, HyprlandConfigTree, HyprlandRenderContext};
pub use variable::Variable;
