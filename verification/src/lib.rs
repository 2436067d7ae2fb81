//! Typed builders that render configuration files for Neovim, fish, fstab,
//! GTK, Helix, Hyprland, Ghostty and fontconfig.
pub mod text;
pub mod decimal;
pub mod base;
pub mod fish;
pub mod command;
pub mod keymap;
pub mod fontconfig;
pub mod fstab;
pub mod ini;
pub mod ghostty;
pub mod gtk;
pub mod helix;
pub mod hyprland;
