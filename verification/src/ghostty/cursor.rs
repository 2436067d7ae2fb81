//! Cursor shapes.
use vstd::prelude::*;
use crate::decimal::{decimal_in_range, decimal_within};
use crate::ghostty::color::HexColor;
use crate::ghostty::context::{GhosttyConfig, GhosttyRenderContext};
use crate::text::{
    cat2,
    bool_val, bool_value, kv_opt, opt_string, opt_view, owned, push_kv_opt, terminate_lines,
    terminated, views,
};

verus! {

/// The shape of the terminal cursor.
#[derive(Clone, Copy, Debug)]
pub enum CursorStyle {
    Block,
    BlockHollow,
    Bar,
    Underline,
    UnderlineHollow,
}

impl CursorStyle {
    /// The text this value is written as.
    pub open spec fn spec_text(&self) -> Seq<char> {
        match self {
            CursorStyle::Block => "block"@,
            CursorStyle::BlockHollow => "block_hollow"@,
            CursorStyle::Bar => "bar"@,
            CursorStyle::Underline => "underline"@,
            CursorStyle::UnderlineHollow => "underline_hollow"@,
        }
    }

    /// The text this value is written as.
    pub fn to_string(&self) -> (r: String)
        ensures
            r@ == self.spec_text(),
    {
        match self {
            CursorStyle::Block => owned("block"),
            CursorStyle::BlockHollow => owned("block_hollow"),
            CursorStyle::Bar => owned("bar"),
            CursorStyle::Underline => owned("underline"),
            CursorStyle::UnderlineHollow => owned("underline_hollow"),
        }
    }
}

/// Cursor configuration for Ghostty.
///
/// Renders as `cursor-*` key-value entries.
#[derive(Clone, Debug)]
pub struct CursorConfig {
    pub style: Option<CursorStyle>,
    /// `true` = blink, `false` = steady, `None` = follow system.
    pub style_blink: Option<bool>,
    /// Override the cursor fill color.
    pub color: Option<HexColor>,
    /// Override the character-under-cursor text color.
    pub text: Option<HexColor>,
    /// Allow placing the cursor by clicking.
    pub click_to_move: Option<bool>,
    /// Cursor opacity as decimal text (0.0 – 1.0).
    pub opacity: Option<String>,
}

impl Default for CursorConfig {
    fn default() -> (r: Self)
        ensures
            r.style is None,
            r.style_blink is None,
            r.color is None,
            r.text is None,
            r.click_to_move is None,
            r.opacity is None,
    {
        CursorConfig { style: None, style_blink: None, color: None, text: None, click_to_move: None, opacity: None }
    }
}

impl CursorConfig {
    pub fn new() -> (r: Self)
        ensures
            r.style is None,
            r.style_blink is None,
            r.color is None,
            r.text is None,
            r.click_to_move is None,
            r.opacity is None,
    {
        Self::default()
    }

    pub fn style(self, s: CursorStyle) -> (r: Self)
        ensures
            r == (CursorConfig { style: Some(s), ..self }),
    {
        CursorConfig { style: Some(s), ..self }
    }

    pub fn blink(self, v: bool) -> (r: Self)
        ensures
            r == (CursorConfig { style_blink: Some(v), ..self }),
    {
        CursorConfig { style_blink: Some(v), ..self }
    }

    pub fn color(self, c: HexColor) -> (r: Self)
        ensures
            r == (CursorConfig { color: Some(c), ..self }),
    {
        CursorConfig { color: Some(c), ..self }
    }

    pub fn text_color(self, c: HexColor) -> (r: Self)
        ensures
            r == (CursorConfig { text: Some(c), ..self }),
    {
        CursorConfig { text: Some(c), ..self }
    }

    pub fn click_to_move(self, v: bool) -> (r: Self)
        ensures
            r == (CursorConfig { click_to_move: Some(v), ..self }),
    {
        CursorConfig { click_to_move: Some(v), ..self }
    }

    /// Cursor opacity, given as its decimal text (e.g. `"0.8"`).
    pub fn opacity_text(self, text: &str) -> (r: Self)
        ensures
            opt_view(r.opacity) == Some(text@),
            r == (CursorConfig { opacity: r.opacity, ..self }),
    {
        CursorConfig { opacity: Some(owned(text)), ..self }
    }

    /// The `key = value` lines of the set options, in order.
    pub open spec fn spec_lines(&self) -> Seq<Seq<char>> {
        kv_opt("cursor-style"@, (match self.style { Some(e) => Some(e.spec_text()), None => None }))
            + kv_opt("cursor-style-blink"@, bool_val(self.style_blink))
            + kv_opt("cursor-color"@, (match self.color { Some(c) => Some(c.0@), None => None }))
            + kv_opt("cursor-text"@, (match self.text { Some(c) => Some(c.0@), None => None }))
            + kv_opt("cursor-click-to-move"@, bool_val(self.click_to_move))
            + kv_opt("cursor-opacity"@, opt_view(self.opacity))
    }
}

impl GhosttyConfig for CursorConfig {
    open spec fn spec_render(&self, ctx: GhosttyRenderContext) -> Seq<char> {
        terminated(self.spec_lines())
    }

    fn render(&self, ctx: &GhosttyRenderContext) -> (r: String) {
        let mut lines: Vec<String> = Vec::new();
        push_kv_opt(&mut lines, "cursor-style", (match &self.style { Some(e) => Some(e.to_string()), None => None }));
        push_kv_opt(&mut lines, "cursor-style-blink", bool_value(self.style_blink));
        push_kv_opt(&mut lines, "cursor-color", (match &self.color { Some(c) => Some(c.to_string()), None => None }));
        push_kv_opt(&mut lines, "cursor-text", (match &self.text { Some(c) => Some(c.to_string()), None => None }));
        push_kv_opt(&mut lines, "cursor-click-to-move", bool_value(self.click_to_move));
        push_kv_opt(&mut lines, "cursor-opacity", opt_string(&self.opacity));
        assert(views(lines@) =~= self.spec_lines());
        terminate_lines(&lines)
    }

    /// The opacity must lie in 0.0 – 1.0. A text that is not a decimal number
    /// (`NaN`, `inf`) fails the check as the number would.
    open spec fn spec_validate(&self) -> Result<(), Seq<char>> {
        match self.opacity {
            Some(t) => if decimal_within(t@, 0, 1) {
                Ok(())
            } else {
                Err("cursor-opacity must be 0.0–1.0, got "@ + t@)
            },
            None => Ok(()),
        }
    }

    fn validate(&self) -> (r: Result<(), String>) {
        match &self.opacity {
            Some(t) => {
                if decimal_in_range(t.as_str(), 0, 1) {
                    Ok(())
                } else {
                    Err(cat2("cursor-opacity must be 0.0–1.0, got ", t.as_str()))
                }
            },
            None => Ok(()),
        }
    }
}

} // verus!
