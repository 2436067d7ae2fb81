//! Comments, blank lines and raw text in a Ghostty config file.
use vstd::prelude::*;
use crate::ghostty::context::{GhosttyConfig, GhosttyRenderContext};
use crate::text::{
    ensure_newline, lines, owned, prefixed, push_prefixed, split_lines, terminate_lines, terminated,
    with_newline,
};

verus! {

/// A comment in the Ghostty config file: each line as `# line`.
#[derive(Clone, Debug)]
pub struct GhosttyComment(pub String);

impl GhosttyComment {
    pub fn new(text: &str) -> (r: Self)
        ensures
            r.0@ == text@,
    {
        GhosttyComment(owned(text))
    }
}

impl GhosttyConfig for GhosttyComment {
    open spec fn spec_render(&self, ctx: GhosttyRenderContext) -> Seq<char> {
        terminated(prefixed("# "@, lines(self.0@)))
    }

    fn render(&self, ctx: &GhosttyRenderContext) -> (r: String) {
        let ls = split_lines(self.0.as_str());
        let mut commented: Vec<String> = Vec::new();
        push_prefixed(&mut commented, "# ", &ls);
        terminate_lines(&commented)
    }

    fn validate(&self) -> (r: Result<(), String>) {
        Ok(())
    }
}

/// An empty line used to separate config sections.
#[derive(Clone, Copy, Debug)]
pub struct GhosttyBlankLine;

impl GhosttyConfig for GhosttyBlankLine {
    open spec fn spec_render(&self, ctx: GhosttyRenderContext) -> Seq<char> {
        "\n"@
    }

    fn render(&self, ctx: &GhosttyRenderContext) -> (r: String) {
        owned("\n")
    }

    fn validate(&self) -> (r: Result<(), String>) {
        Ok(())
    }
}

/// Raw, unvalidated text (typically a `key = value` entry), newline-terminated.
#[derive(Clone, Debug)]
pub struct RawGhostty {
    pub content: String,
}

impl RawGhostty {
    pub fn new(content: &str) -> (r: Self)
        ensures
            r.content@ == content@,
    {
        RawGhostty { content: owned(content) }
    }
}

impl GhosttyConfig for RawGhostty {
    open spec fn spec_render(&self, ctx: GhosttyRenderContext) -> Seq<char> {
        with_newline(self.content@)
    }

    fn render(&self, ctx: &GhosttyRenderContext) -> (r: String) {
        ensure_newline(self.content.as_str())
    }

    fn validate(&self) -> (r: Result<(), String>) {
        Ok(())
    }
}

} // verus!
