//! Environment variables passed to spawned processes (`env = KEY,value`).
use vstd::prelude::*;
use crate::hyprland::context::{HyprlandConfig, HyprlandRenderContext};
use crate::text::{cat2, cat3, cat4, contains_char, is_empty_str, nat_str, owned, u64_str};

verus! {

/// A Hyprland environment variable declaration: `env = KEY,value`.
pub struct EnvVar {
    pub key: String,
    pub value: String,
}

impl EnvVar {
    pub fn new(key: &str, value: &str) -> (r: Self)
        ensures
            r.key@ == key@,
            r.value@ == value@,
    {
        EnvVar { key: owned(key), value: owned(value) }
    }

    /// `XCURSOR_SIZE` for a consistent cursor size.
    pub fn xcursor_size(size: u32) -> (r: Self)
        ensures
            r.key@ == "XCURSOR_SIZE"@,
            r.value@ == nat_str(size as nat),
    {
        let v = u64_str(size as u64);
        Self::new("XCURSOR_SIZE", v.as_str())
    }

    /// The cursor theme name.
    pub fn xcursor_theme(theme: &str) -> (r: Self)
        ensures
            r.key@ == "XCURSOR_THEME"@,
            r.value@ == theme@,
    {
        Self::new("XCURSOR_THEME", theme)
    }

    /// `QT_QPA_PLATFORM=wayland`.
    pub fn qt_wayland() -> (r: Self)
        ensures
            r.key@ == "QT_QPA_PLATFORM"@,
            r.value@ == "wayland"@,
    {
        Self::new("QT_QPA_PLATFORM", "wayland")
    }

    /// `QT_WAYLAND_DISABLE_WINDOWDECORATION=1`.
    pub fn qt_no_csd() -> (r: Self)
        ensures
            r.key@ == "QT_WAYLAND_DISABLE_WINDOWDECORATION"@,
            r.value@ == "1"@,
    {
        Self::new("QT_WAYLAND_DISABLE_WINDOWDECORATION", "1")
    }

    /// `XDG_CURRENT_DESKTOP` for portal compatibility.
    pub fn xdg_current_desktop(de: &str) -> (r: Self)
        ensures
            r.key@ == "XDG_CURRENT_DESKTOP"@,
            r.value@ == de@,
    {
        Self::new("XDG_CURRENT_DESKTOP", de)
    }

    /// `XDG_SESSION_TYPE=wayland`.
    pub fn xdg_session_wayland() -> (r: Self)
        ensures
            r.key@ == "XDG_SESSION_TYPE"@,
            r.value@ == "wayland"@,
    {
        Self::new("XDG_SESSION_TYPE", "wayland")
    }

    /// `GDK_BACKEND=wayland`.
    pub fn gdk_wayland() -> (r: Self)
        ensures
            r.key@ == "GDK_BACKEND"@,
            r.value@ == "wayland"@,
    {
        Self::new("GDK_BACKEND", "wayland")
    }

    /// `SDL_VIDEODRIVER=wayland`.
    pub fn sdl_wayland() -> (r: Self)
        ensures
            r.key@ == "SDL_VIDEODRIVER"@,
            r.value@ == "wayland"@,
    {
        Self::new("SDL_VIDEODRIVER", "wayland")
    }

    /// `CLUTTER_BACKEND=wayland`.
    pub fn clutter_wayland() -> (r: Self)
        ensures
            r.key@ == "CLUTTER_BACKEND"@,
            r.value@ == "wayland"@,
    {
        Self::new("CLUTTER_BACKEND", "wayland")
    }

    /// Preferred GPUs via `AQ_DRM_DEVICES` (colon-separated card paths).
    pub fn preferred_gpu(devices: &str) -> (r: Self)
        ensures
            r.key@ == "AQ_DRM_DEVICES"@,
            r.value@ == devices@,
    {
        Self::new("AQ_DRM_DEVICES", devices)
    }

    /// `LIBVA_DRIVER_NAME=nvidia`.
    pub fn nvidia_libva() -> (r: Self)
        ensures
            r.key@ == "LIBVA_DRIVER_NAME"@,
            r.value@ == "nvidia"@,
    {
        Self::new("LIBVA_DRIVER_NAME", "nvidia")
    }

    /// `GBM_BACKEND=nvidia-drm`.
    pub fn nvidia_gbm() -> (r: Self)
        ensures
            r.key@ == "GBM_BACKEND"@,
            r.value@ == "nvidia-drm"@,
    {
        Self::new("GBM_BACKEND", "nvidia-drm")
    }

    /// `__GLX_VENDOR_LIBRARY_NAME=nvidia`.
    pub fn nvidia_glx() -> (r: Self)
        ensures
            r.key@ == "__GLX_VENDOR_LIBRARY_NAME"@,
            r.value@ == "nvidia"@,
    {
        Self::new("__GLX_VENDOR_LIBRARY_NAME", "nvidia")
    }

    /// `NVD_BACKEND=direct`.
    pub fn nvidia_explicit_sync() -> (r: Self)
        ensures
            r.key@ == "NVD_BACKEND"@,
            r.value@ == "direct"@,
    {
        Self::new("NVD_BACKEND", "direct")
    }
}

impl HyprlandConfig for EnvVar {
    open spec fn spec_render(&self, ctx: HyprlandRenderContext) -> Seq<char> {
        ctx.spec_indent() + "env = "@ + self.key@ + ","@ + self.value@
    }

    open spec fn spec_validate(&self) -> Result<(), Seq<char>> {
        if self.key@.len() == 0 {
            Err("EnvVar key cannot be empty"@)
        } else if self.key@.contains(',') {
            Err("EnvVar key '"@ + self.key@ + "' must not contain commas"@)
        } else {
            Ok(())
        }
    }

    fn render(&self, ctx: &HyprlandRenderContext) -> (r: String) {
        let ind = ctx.indent();
        let head = cat2(ind.as_str(), "env = ");
        cat4(head.as_str(), self.key.as_str(), ",", self.value.as_str())
    }

    fn validate(&self) -> (r: Result<(), String>) {
        if is_empty_str(self.key.as_str()) {
            return Err(owned("EnvVar key cannot be empty"));
        }
        if contains_char(self.key.as_str(), ',') {
            return Err(cat3("EnvVar key '", self.key.as_str(), "' must not contain commas"));
        }
        Ok(())
    }
}

} // verus!
