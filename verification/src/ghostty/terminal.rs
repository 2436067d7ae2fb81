//! Terminal behaviour: `term`, scrollback and clipboard settings.
use vstd::prelude::*;
use crate::ghostty::context::{GhosttyConfig, GhosttyRenderContext};
use crate::text::{
    bool_val, bool_value, i64_str, int_str, kv_opt, opt_string, opt_view, owned, push_kv_opt,
    terminate_lines, terminated, views,
};

verus! {

/// Clipboard read/write access policy.
#[derive(Clone, Copy, Debug)]
pub enum ClipboardAccess {
    /// Allow clipboard access (default for write, ask for read).
    Allow,
    /// Deny clipboard access.
    Deny,
    /// Prompt the user before granting access.
    Ask,
}

impl ClipboardAccess {
    /// The text this value is written as.
    pub open spec fn spec_text(&self) -> Seq<char> {
        match self {
            ClipboardAccess::Allow => "allow"@,
            ClipboardAccess::Deny => "deny"@,
            ClipboardAccess::Ask => "ask"@,
        }
    }

    /// The text this value is written as.
    pub fn to_string(&self) -> (r: String)
        ensures
            r@ == self.spec_text(),
    {
        match self {
            ClipboardAccess::Allow => owned("allow"),
            ClipboardAccess::Deny => owned("deny"),
            ClipboardAccess::Ask => owned("ask"),
        }
    }
}

/// Terminal behaviour configuration.
#[derive(Clone, Debug)]
pub struct TerminalConfig {
    /// Value of `$TERM`, e.g. `"xterm-ghostty"` (default).
    pub term: Option<String>,
    /// Number of lines kept in the scroll-back buffer (0 = unlimited).
    pub scrollback_limit: Option<i64>,
    /// Whether OSC 52 clipboard read is permitted.
    pub clipboard_read: Option<ClipboardAccess>,
    /// Whether OSC 52 clipboard write is permitted.
    pub clipboard_write: Option<ClipboardAccess>,
    /// Strip trailing whitespace when copying.
    pub clipboard_trim_trailing_spaces: Option<bool>,
    /// Warn before pasting text that looks dangerous.
    pub clipboard_paste_protection: Option<bool>,
    /// Allow bracketed-paste bypass of paste protection.
    pub clipboard_paste_bracketed_safe: Option<bool>,
    /// Enable the OSC 8 hyperlink protocol.
    pub links: Option<bool>,
    /// Open URLs in the browser on click.
    pub link_url: Option<bool>,
}

impl Default for TerminalConfig {
    fn default() -> (r: Self)
        ensures
            r.term is None,
            r.scrollback_limit is None,
            r.clipboard_read is None,
            r.clipboard_write is None,
            r.clipboard_trim_trailing_spaces is None,
            r.clipboard_paste_protection is None,
            r.clipboard_paste_bracketed_safe is None,
            r.links is None,
            r.link_url is None,
    {
        TerminalConfig {
            term: None,
            scrollback_limit: None,
            clipboard_read: None,
            clipboard_write: None,
            clipboard_trim_trailing_spaces: None,
            clipboard_paste_protection: None,
            clipboard_paste_bracketed_safe: None,
            links: None,
            link_url: None,
        }
    }
}

impl TerminalConfig {
    pub fn new() -> (r: Self)
        ensures
            r.term is None,
            r.scrollback_limit is None,
            r.clipboard_read is None,
            r.clipboard_write is None,
            r.clipboard_trim_trailing_spaces is None,
            r.clipboard_paste_protection is None,
            r.clipboard_paste_bracketed_safe is None,
            r.links is None,
            r.link_url is None,
    {
        Self::default()
    }

    pub fn term(self, v: &str) -> (r: Self)
        ensures
            opt_view(r.term) == Some(v@),
            r == (TerminalConfig { term: r.term, ..self }),
    {
        TerminalConfig { term: Some(owned(v)), ..self }
    }

    pub fn scrollback_limit(self, lines: i64) -> (r: Self)
        ensures
            r == (TerminalConfig { scrollback_limit: Some(lines), ..self }),
    {
        TerminalConfig { scrollback_limit: Some(lines), ..self }
    }

    pub fn clipboard_read(self, a: ClipboardAccess) -> (r: Self)
        ensures
            r == (TerminalConfig { clipboard_read: Some(a), ..self }),
    {
        TerminalConfig { clipboard_read: Some(a), ..self }
    }

    pub fn clipboard_write(self, a: ClipboardAccess) -> (r: Self)
        ensures
            r == (TerminalConfig { clipboard_write: Some(a), ..self }),
    {
        TerminalConfig { clipboard_write: Some(a), ..self }
    }

    pub fn clipboard_trim_trailing_spaces(self, v: bool) -> (r: Self)
        ensures
            r == (TerminalConfig { clipboard_trim_trailing_spaces: Some(v), ..self }),
    {
        TerminalConfig { clipboard_trim_trailing_spaces: Some(v), ..self }
    }

    pub fn clipboard_paste_protection(self, v: bool) -> (r: Self)
        ensures
            r == (TerminalConfig { clipboard_paste_protection: Some(v), ..self }),
    {
        TerminalConfig { clipboard_paste_protection: Some(v), ..self }
    }

    pub fn clipboard_paste_bracketed_safe(self, v: bool) -> (r: Self)
        ensures
            r == (TerminalConfig { clipboard_paste_bracketed_safe: Some(v), ..self }),
    {
        TerminalConfig { clipboard_paste_bracketed_safe: Some(v), ..self }
    }

    pub fn links(self, v: bool) -> (r: Self)
        ensures
            r == (TerminalConfig { links: Some(v), ..self }),
    {
        TerminalConfig { links: Some(v), ..self }
    }

    pub fn link_url(self, v: bool) -> (r: Self)
        ensures
            r == (TerminalConfig { link_url: Some(v), ..self }),
    {
        TerminalConfig { link_url: Some(v), ..self }
    }

    /// The `key = value` lines of the set options, in order.
    pub open spec fn spec_lines(&self) -> Seq<Seq<char>> {
        kv_opt("term"@, opt_view(self.term))
            + kv_opt("scrollback-limit"@, (match self.scrollback_limit { Some(n) => Some(int_str(n as int)), None => None }))
            + kv_opt("clipboard-read"@, (match self.clipboard_read { Some(e) => Some(e.spec_text()), None => None }))
            + kv_opt("clipboard-write"@, (match self.clipboard_write { Some(e) => Some(e.spec_text()), None => None }))
            + kv_opt("clipboard-trim-trailing-spaces"@, bool_val(self.clipboard_trim_trailing_spaces))
            + kv_opt("clipboard-paste-protection"@, bool_val(self.clipboard_paste_protection))
            + kv_opt("clipboard-paste-bracketed-safe"@, bool_val(self.clipboard_paste_bracketed_safe))
            + kv_opt("link"@, bool_val(self.links))
            + kv_opt("link-url"@, bool_val(self.link_url))
    }
}

impl GhosttyConfig for TerminalConfig {
    open spec fn spec_render(&self, ctx: GhosttyRenderContext) -> Seq<char> {
        terminated(self.spec_lines())
    }

    fn render(&self, ctx: &GhosttyRenderContext) -> (r: String) {
        let mut lines: Vec<String> = Vec::new();
        push_kv_opt(&mut lines, "term", opt_string(&self.term));
        push_kv_opt(&mut lines, "scrollback-limit", (match self.scrollback_limit { Some(n) => Some(i64_str(n)), None => None }));
        push_kv_opt(&mut lines, "clipboard-read", (match &self.clipboard_read { Some(e) => Some(e.to_string()), None => None }));
        push_kv_opt(&mut lines, "clipboard-write", (match &self.clipboard_write { Some(e) => Some(e.to_string()), None => None }));
        push_kv_opt(&mut lines, "clipboard-trim-trailing-spaces", bool_value(self.clipboard_trim_trailing_spaces));
        push_kv_opt(&mut lines, "clipboard-paste-protection", bool_value(self.clipboard_paste_protection));
        push_kv_opt(&mut lines, "clipboard-paste-bracketed-safe", bool_value(self.clipboard_paste_bracketed_safe));
        push_kv_opt(&mut lines, "link", bool_value(self.links));
        push_kv_opt(&mut lines, "link-url", bool_value(self.link_url));
        assert(views(lines@) =~= self.spec_lines());
        terminate_lines(&lines)
    }

    fn validate(&self) -> (r: Result<(), String>) {
        Ok(())
    }
}

} // verus!
