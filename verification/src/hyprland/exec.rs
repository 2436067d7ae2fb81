//! Startup and reload commands, plugins and sourced files.
use vstd::prelude::*;
use crate::hyprland::context::{HyprlandConfig, HyprlandRenderContext};
use crate::text::{cat2, cat3, is_empty_str, owned};

verus! {

/// A command run once when Hyprland starts: `exec-once = command`.
pub struct ExecOnce {
    pub command: String,
}

impl ExecOnce {
    pub fn new(command: &str) -> (r: Self)
        ensures
            r.command@ == command@,
    {
        ExecOnce { command: owned(command) }
    }

    /// Run a `hyprctl dispatch` command on startup.
    pub fn hyprctl_dispatch(dispatch: &str) -> (r: Self)
        ensures
            r.command@ == "hyprctl dispatch "@ + dispatch@,
    {
        let c = cat2("hyprctl dispatch ", dispatch);
        Self::new(c.as_str())
    }
}

impl HyprlandConfig for ExecOnce {
    open spec fn spec_render(&self, ctx: HyprlandRenderContext) -> Seq<char> {
        ctx.spec_indent() + "exec-once = "@ + self.command@
    }

    fn render(&self, ctx: &HyprlandRenderContext) -> (r: String) {
        let ind = ctx.indent();
        cat3(ind.as_str(), "exec-once = ", self.command.as_str())
    }

    fn validate(&self) -> (r: Result<(), String>) {
        Ok(())
    }
}

/// A command run on every config reload: `exec = command`.
pub struct Exec {
    pub command: String,
}

impl Exec {
    pub fn new(command: &str) -> (r: Self)
        ensures
            r.command@ == command@,
    {
        Exec { command: owned(command) }
    }
}

impl HyprlandConfig for Exec {
    open spec fn spec_render(&self, ctx: HyprlandRenderContext) -> Seq<char> {
        ctx.spec_indent() + "exec = "@ + self.command@
    }

    fn render(&self, ctx: &HyprlandRenderContext) -> (r: String) {
        let ind = ctx.indent();
        cat3(ind.as_str(), "exec = ", self.command.as_str())
    }

    fn validate(&self) -> (r: Result<(), String>) {
        Ok(())
    }
}

/// Load a Hyprland plugin: `plugin = /path/to/plugin.so`.
pub struct PluginLoad {
    pub path: String,
}

impl PluginLoad {
    pub fn new(path: &str) -> (r: Self)
        ensures
            r.path@ == path@,
    {
        PluginLoad { path: owned(path) }
    }
}

impl HyprlandConfig for PluginLoad {
    open spec fn spec_render(&self, ctx: HyprlandRenderContext) -> Seq<char> {
        ctx.spec_indent() + "plugin = "@ + self.path@
    }

    open spec fn spec_validate(&self) -> Result<(), Seq<char>> {
        if self.path@.len() == 0 {
            Err("PluginLoad path cannot be empty"@)
        } else {
            Ok(())
        }
    }

    fn render(&self, ctx: &HyprlandRenderContext) -> (r: String) {
        let ind = ctx.indent();
        cat3(ind.as_str(), "plugin = ", self.path.as_str())
    }

    fn validate(&self) -> (r: Result<(), String>) {
        if is_empty_str(self.path.as_str()) {
            return Err(owned("PluginLoad path cannot be empty"));
        }
        Ok(())
    }
}

/// Include another config file: `source = path`.
pub struct Source {
    pub path: String,
}

impl Source {
    pub fn new(path: &str) -> (r: Self)
        ensures
            r.path@ == path@,
    {
        Source { path: owned(path) }
    }
}

impl HyprlandConfig for Source {
    open spec fn spec_render(&self, ctx: HyprlandRenderContext) -> Seq<char> {
        ctx.spec_indent() + "source = "@ + self.path@
    }

    open spec fn spec_validate(&self) -> Result<(), Seq<char>> {
        if self.path@.len() == 0 {
            Err("Source path cannot be empty"@)
        } else {
            Ok(())
        }
    }

    fn render(&self, ctx: &HyprlandRenderContext) -> (r: String) {
        let ind = ctx.indent();
        cat3(ind.as_str(), "source = ", self.path.as_str())
    }

    fn validate(&self) -> (r: Result<(), String>) {
        if is_empty_str(self.path.as_str()) {
            return Err(owned("Source path cannot be empty"));
        }
        Ok(())
    }
}

} // verus!
