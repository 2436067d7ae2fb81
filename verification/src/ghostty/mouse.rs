//! Mouse behaviour.
use vstd::prelude::*;
use crate::ghostty::context::{GhosttyConfig, GhosttyRenderContext};
use crate::text::{
    bool_val, bool_value, kv_opt, opt_string, opt_view, owned, push_kv_opt, terminate_lines,
    terminated, views,
};

verus! {

/// Mouse behavior configuration for Ghostty.
///
/// Renders as `mouse-hide-while-typing`, `mouse-scroll-multiplier`,
/// and `focus-follows-mouse` entries.
#[derive(Clone, Debug)]
pub struct MouseConfig {
    /// Hide the mouse cursor while the user is typing.
    pub hide_while_typing: Option<bool>,
    /// Multiplier applied to scroll wheel events, as decimal text.
    pub scroll_multiplier: Option<String>,
    /// Give keyboard focus to whichever surface the pointer is over.
    pub focus_follows_mouse: Option<bool>,
}

impl Default for MouseConfig {
    fn default() -> (r: Self)
        ensures
            r.hide_while_typing is None,
            r.scroll_multiplier is None,
            r.focus_follows_mouse is None,
    {
        MouseConfig { hide_while_typing: None, scroll_multiplier: None, focus_follows_mouse: None }
    }
}

impl MouseConfig {
    pub fn new() -> (r: Self)
        ensures
            r.hide_while_typing is None,
            r.scroll_multiplier is None,
            r.focus_follows_mouse is None,
    {
        Self::default()
    }

    pub fn hide_while_typing(self, v: bool) -> (r: Self)
        ensures
            r == (MouseConfig { hide_while_typing: Some(v), ..self }),
    {
        MouseConfig { hide_while_typing: Some(v), ..self }
    }

    /// Scroll multiplier, given as its decimal text (e.g. `"1.5"`).
    pub fn scroll_multiplier_text(self, text: &str) -> (r: Self)
        ensures
            opt_view(r.scroll_multiplier) == Some(text@),
            r == (MouseConfig { scroll_multiplier: r.scroll_multiplier, ..self }),
    {
        MouseConfig { scroll_multiplier: Some(owned(text)), ..self }
    }

    pub fn focus_follows_mouse(self, v: bool) -> (r: Self)
        ensures
            r == (MouseConfig { focus_follows_mouse: Some(v), ..self }),
    {
        MouseConfig { focus_follows_mouse: Some(v), ..self }
    }

    /// The `key = value` lines of the set options, in order.
    pub open spec fn spec_lines(&self) -> Seq<Seq<char>> {
        kv_opt("mouse-hide-while-typing"@, bool_val(self.hide_while_typing))
            + kv_opt("mouse-scroll-multiplier"@, opt_view(self.scroll_multiplier))
            + kv_opt("focus-follows-mouse"@, bool_val(self.focus_follows_mouse))
    }
}

impl GhosttyConfig for MouseConfig {
    open spec fn spec_render(&self, ctx: GhosttyRenderContext) -> Seq<char> {
        terminated(self.spec_lines())
    }

    fn render(&self, ctx: &GhosttyRenderContext) -> (r: String) {
        let mut lines: Vec<String> = Vec::new();
        push_kv_opt(&mut lines, "mouse-hide-while-typing", bool_value(self.hide_while_typing));
        push_kv_opt(&mut lines, "mouse-scroll-multiplier", opt_string(&self.scroll_multiplier));
        push_kv_opt(&mut lines, "focus-follows-mouse", bool_value(self.focus_follows_mouse));
        assert(views(lines@) =~= self.spec_lines());
        terminate_lines(&lines)
    }

    fn validate(&self) -> (r: Result<(), String>) {
        Ok(())
    }
}

} // verus!
