//! Shell and process settings.
use vstd::prelude::*;
use crate::ghostty::context::{GhosttyConfig, GhosttyRenderContext};
use crate::text::{
    bool_val, bool_value, kv_opt, opt_string, opt_view, owned, push_kv_opt, terminate_lines,
    terminated, views,
};

verus! {

/// Shell integration auto-detection policy.
#[derive(Clone, Copy, Debug)]
pub enum ShellIntegration {
    /// Auto-detect the shell (default).
    Detect,
    /// Disable shell integration entirely.
    NoIntegration,
    Bash,
    Fish,
    Zsh,
    Elvish,
}

impl ShellIntegration {
    /// The text this value is written as.
    pub open spec fn spec_text(&self) -> Seq<char> {
        match self {
            ShellIntegration::Detect => "detect"@,
            ShellIntegration::NoIntegration => "none"@,
            ShellIntegration::Bash => "bash"@,
            ShellIntegration::Fish => "fish"@,
            ShellIntegration::Zsh => "zsh"@,
            ShellIntegration::Elvish => "elvish"@,
        }
    }

    /// The text this value is written as.
    pub fn to_string(&self) -> (r: String)
        ensures
            r@ == self.spec_text(),
    {
        match self {
            ShellIntegration::Detect => owned("detect"),
            ShellIntegration::NoIntegration => owned("none"),
            ShellIntegration::Bash => owned("bash"),
            ShellIntegration::Fish => owned("fish"),
            ShellIntegration::Zsh => owned("zsh"),
            ShellIntegration::Elvish => owned("elvish"),
        }
    }
}

/// Shell and process configuration: `command`, `login-shell`,
/// `working-directory` and `shell-integration*` entries.
#[derive(Clone, Debug)]
pub struct ShellConfig {
    /// Override the shell command (default: user's login shell).
    pub command: Option<String>,
    /// Command to run for the initial surface only.
    pub initial_command: Option<String>,
    /// Invoke the shell as a login shell.
    pub login_shell: Option<bool>,
    /// Starting working directory.
    pub working_directory: Option<String>,
    /// Which shell integration to inject.
    pub shell_integration: Option<ShellIntegration>,
    /// Comma-separated list of integration features to enable/disable,
    /// e.g. `"cursor,title"` or `"no-cursor"`.
    pub shell_integration_features: Option<String>,
}

impl Default for ShellConfig {
    fn default() -> (r: Self)
        ensures
            r.command is None,
            r.initial_command is None,
            r.login_shell is None,
            r.working_directory is None,
            r.shell_integration is None,
            r.shell_integration_features is None,
    {
        ShellConfig {
            command: None,
            initial_command: None,
            login_shell: None,
            working_directory: None,
            shell_integration: None,
            shell_integration_features: None,
        }
    }
}

impl ShellConfig {
    pub fn new() -> (r: Self)
        ensures
            r.command is None,
            r.initial_command is None,
            r.login_shell is None,
            r.working_directory is None,
            r.shell_integration is None,
            r.shell_integration_features is None,
    {
        Self::default()
    }

    pub fn command(self, v: &str) -> (r: Self)
        ensures
            opt_view(r.command) == Some(v@),
            r == (ShellConfig { command: r.command, ..self }),
    {
        ShellConfig { command: Some(owned(v)), ..self }
    }

    pub fn initial_command(self, v: &str) -> (r: Self)
        ensures
            opt_view(r.initial_command) == Some(v@),
            r == (ShellConfig { initial_command: r.initial_command, ..self }),
    {
        ShellConfig { initial_command: Some(owned(v)), ..self }
    }

    pub fn login_shell(self, v: bool) -> (r: Self)
        ensures
            r == (ShellConfig { login_shell: Some(v), ..self }),
    {
        ShellConfig { login_shell: Some(v), ..self }
    }

    pub fn working_directory(self, v: &str) -> (r: Self)
        ensures
            opt_view(r.working_directory) == Some(v@),
            r == (ShellConfig { working_directory: r.working_directory, ..self }),
    {
        ShellConfig { working_directory: Some(owned(v)), ..self }
    }

    pub fn shell_integration(self, v: ShellIntegration) -> (r: Self)
        ensures
            r == (ShellConfig { shell_integration: Some(v), ..self }),
    {
        ShellConfig { shell_integration: Some(v), ..self }
    }

    pub fn shell_integration_features(self, v: &str) -> (r: Self)
        ensures
            opt_view(r.shell_integration_features) == Some(v@),
            r == (ShellConfig { shell_integration_features: r.shell_integration_features, ..self }),
    {
        ShellConfig { shell_integration_features: Some(owned(v)), ..self }
    }

    /// The `key = value` lines of the set options, in order.
    pub open spec fn spec_lines(&self) -> Seq<Seq<char>> {
        kv_opt("command"@, opt_view(self.command))
            + kv_opt("initial-command"@, opt_view(self.initial_command))
            + kv_opt("login-shell"@, bool_val(self.login_shell))
            + kv_opt("working-directory"@, opt_view(self.working_directory))
            + kv_opt("shell-integration"@, (match self.shell_integration { Some(e) => Some(e.spec_text()), None => None }))
            + kv_opt("shell-integration-features"@, opt_view(self.shell_integration_features))
    }
}

impl GhosttyConfig for ShellConfig {
    open spec fn spec_render(&self, ctx: GhosttyRenderContext) -> Seq<char> {
        terminated(self.spec_lines())
    }

    fn render(&self, ctx: &GhosttyRenderContext) -> (r: String) {
        let mut lines: Vec<String> = Vec::new();
        push_kv_opt(&mut lines, "command", opt_string(&self.command));
        push_kv_opt(&mut lines, "initial-command", opt_string(&self.initial_command));
        push_kv_opt(&mut lines, "login-shell", bool_value(self.login_shell));
        push_kv_opt(&mut lines, "working-directory", opt_string(&self.working_directory));
        push_kv_opt(&mut lines, "shell-integration", (match &self.shell_integration { Some(e) => Some(e.to_string()), None => None }));
        push_kv_opt(&mut lines, "shell-integration-features", opt_string(&self.shell_integration_features));
        assert(views(lines@) =~= self.spec_lines());
        terminate_lines(&lines)
    }

    fn validate(&self) -> (r: Result<(), String>) {
        Ok(())
    }
}

} // verus!
