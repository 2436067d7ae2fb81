//! Window option values.
use vstd::prelude::*;
use crate::decimal::{decimal_in_range, decimal_within};
use crate::ghostty::context::{GhosttyConfig, GhosttyRenderContext};
use crate::text::{
    cat2,
    append_parts, bool_val, bool_value, cat3, i64_str, int_str, kv_opt, num_val, opt_string, opt_view, owned,
    push_kv_opt, terminate_lines, terminated, u32_value, views,
};

verus! {

/// Whether the OS window decoration (title bar / border) is enabled.
#[derive(Clone, Copy, Debug)]
pub enum WindowDecoration {
    /// Let Ghostty decide (default).
    Auto,
    /// No window decoration.
    NoDecoration,
    /// Client-side decorations (drawn by Ghostty).
    Client,
    /// Server-side decorations (drawn by the compositor/OS).
    Server,
}

impl WindowDecoration {
    /// The text this value is written as.
    pub open spec fn spec_text(&self) -> Seq<char> {
        match self {
            WindowDecoration::Auto => "auto"@,
            WindowDecoration::NoDecoration => "none"@,
            WindowDecoration::Client => "client"@,
            WindowDecoration::Server => "server"@,
        }
    }

    /// The text this value is written as.
    pub fn to_string(&self) -> (r: String)
        ensures
            r@ == self.spec_text(),
    {
        match self {
            WindowDecoration::Auto => owned("auto"),
            WindowDecoration::NoDecoration => owned("none"),
            WindowDecoration::Client => owned("client"),
            WindowDecoration::Server => owned("server"),
        }
    }
}

/// Whether Ghostty restores the previous window state on launch.
#[derive(Clone, Copy, Debug)]
pub enum WindowSaveState {
    Default,
    Never,
    Always,
}

impl WindowSaveState {
    /// The text this value is written as.
    pub open spec fn spec_text(&self) -> Seq<char> {
        match self {
            WindowSaveState::Default => "default"@,
            WindowSaveState::Never => "never"@,
            WindowSaveState::Always => "always"@,
        }
    }

    /// The text this value is written as.
    pub fn to_string(&self) -> (r: String)
        ensures
            r@ == self.spec_text(),
    {
        match self {
            WindowSaveState::Default => owned("default"),
            WindowSaveState::Never => owned("never"),
            WindowSaveState::Always => owned("always"),
        }
    }
}

/// The color used to fill the padding around the terminal grid.
#[derive(Clone, Copy, Debug)]
pub enum PaddingColor {
    /// Match the terminal background color (default).
    Background,
    /// Extend the terminal's edge colors into the padding.
    Extend,
    /// Extend, but only in the block direction (top/bottom).
    ExtendAlways,
}

impl PaddingColor {
    /// The text this value is written as.
    pub open spec fn spec_text(&self) -> Seq<char> {
        match self {
            PaddingColor::Background => "background"@,
            PaddingColor::Extend => "extend"@,
            PaddingColor::ExtendAlways => "extend-always"@,
        }
    }

    /// The text this value is written as.
    pub fn to_string(&self) -> (r: String)
        ensures
            r@ == self.spec_text(),
    {
        match self {
            PaddingColor::Background => owned("background"),
            PaddingColor::Extend => owned("extend"),
            PaddingColor::ExtendAlways => owned("extend-always"),
        }
    }
}

/// Color space used for rendering.
#[derive(Clone, Copy, Debug)]
pub enum Colorspace {
    Srgb,
    DisplayP3,
}

impl Colorspace {
    /// The text this value is written as.
    pub open spec fn spec_text(&self) -> Seq<char> {
        match self {
            Colorspace::Srgb => "srgb"@,
            Colorspace::DisplayP3 => "display-p3"@,
        }
    }

    /// The text this value is written as.
    pub fn to_string(&self) -> (r: String)
        ensures
            r@ == self.spec_text(),
    {
        match self {
            Colorspace::Srgb => owned("srgb"),
            Colorspace::DisplayP3 => owned("display-p3"),
        }
    }
}

/// Window configuration for Ghostty.
///
/// Renders as `window-*` key-value entries.
#[derive(Clone, Debug)]
pub struct WindowConfig {
    /// Initial window width in columns.
    pub width: Option<u32>,
    /// Initial window height in rows.
    pub height: Option<u32>,
    pub title: Option<String>,
    pub decoration: Option<WindowDecoration>,
    pub padding_x: Option<u32>,
    pub padding_y: Option<u32>,
    pub padding_balance: Option<bool>,
    pub padding_color: Option<PaddingColor>,
    pub colorspace: Option<Colorspace>,
    pub save_state: Option<WindowSaveState>,
    pub new_tab_position: Option<String>,
    pub inherit_working_directory: Option<bool>,
    pub inherit_font_size: Option<bool>,
    /// Initial window position `(x, y)` in pixels.
    pub initial_position: Option<(i32, i32)>,
    /// Background opacity as decimal text, e.g. `"0.9"` (0.0 – 1.0).
    pub opacity: Option<String>,
    pub background_blur: Option<u32>,
}

impl Default for WindowConfig {
    fn default() -> (r: Self)
        ensures
            r.width is None,
            r.height is None,
            r.title is None,
            r.decoration is None,
            r.padding_x is None,
            r.padding_y is None,
            r.padding_balance is None,
            r.padding_color is None,
            r.colorspace is None,
            r.save_state is None,
            r.new_tab_position is None,
            r.inherit_working_directory is None,
            r.inherit_font_size is None,
            r.initial_position is None,
            r.opacity is None,
            r.background_blur is None,
    {
        WindowConfig { width: None, height: None, title: None, decoration: None, padding_x: None, padding_y: None, padding_balance: None, padding_color: None, colorspace: None, save_state: None, new_tab_position: None, inherit_working_directory: None, inherit_font_size: None, initial_position: None, opacity: None, background_blur: None }
    }
}

impl WindowConfig {
    pub fn new() -> (r: Self)
        ensures
            r.width is None,
            r.height is None,
            r.title is None,
            r.decoration is None,
            r.padding_x is None,
            r.padding_y is None,
            r.padding_balance is None,
            r.padding_color is None,
            r.colorspace is None,
            r.save_state is None,
            r.new_tab_position is None,
            r.inherit_working_directory is None,
            r.inherit_font_size is None,
            r.initial_position is None,
            r.opacity is None,
            r.background_blur is None,
    {
        Self::default()
    }

    pub fn width(self, cols: u32) -> (r: Self)
        ensures
            r == (WindowConfig { width: Some(cols), ..self }),
    {
        WindowConfig { width: Some(cols), ..self }
    }

    pub fn height(self, rows: u32) -> (r: Self)
        ensures
            r == (WindowConfig { height: Some(rows), ..self }),
    {
        WindowConfig { height: Some(rows), ..self }
    }

    pub fn title(self, t: &str) -> (r: Self)
        ensures
            opt_view(r.title) == Some(t@),
            r == (WindowConfig { title: r.title, ..self }),
    {
        WindowConfig { title: Some(owned(t)), ..self }
    }

    pub fn decoration(self, d: WindowDecoration) -> (r: Self)
        ensures
            r == (WindowConfig { decoration: Some(d), ..self }),
    {
        WindowConfig { decoration: Some(d), ..self }
    }

    pub fn padding_x(self, px: u32) -> (r: Self)
        ensures
            r == (WindowConfig { padding_x: Some(px), ..self }),
    {
        WindowConfig { padding_x: Some(px), ..self }
    }

    pub fn padding_y(self, px: u32) -> (r: Self)
        ensures
            r == (WindowConfig { padding_y: Some(px), ..self }),
    {
        WindowConfig { padding_y: Some(px), ..self }
    }

    pub fn padding_balance(self, v: bool) -> (r: Self)
        ensures
            r == (WindowConfig { padding_balance: Some(v), ..self }),
    {
        WindowConfig { padding_balance: Some(v), ..self }
    }

    pub fn padding_color(self, c: PaddingColor) -> (r: Self)
        ensures
            r == (WindowConfig { padding_color: Some(c), ..self }),
    {
        WindowConfig { padding_color: Some(c), ..self }
    }

    pub fn colorspace(self, cs: Colorspace) -> (r: Self)
        ensures
            r == (WindowConfig { colorspace: Some(cs), ..self }),
    {
        WindowConfig { colorspace: Some(cs), ..self }
    }

    pub fn save_state(self, s: WindowSaveState) -> (r: Self)
        ensures
            r == (WindowConfig { save_state: Some(s), ..self }),
    {
        WindowConfig { save_state: Some(s), ..self }
    }

    pub fn new_tab_position(self, pos: &str) -> (r: Self)
        ensures
            opt_view(r.new_tab_position) == Some(pos@),
            r == (WindowConfig { new_tab_position: r.new_tab_position, ..self }),
    {
        WindowConfig { new_tab_position: Some(owned(pos)), ..self }
    }

    pub fn inherit_working_directory(self, v: bool) -> (r: Self)
        ensures
            r == (WindowConfig { inherit_working_directory: Some(v), ..self }),
    {
        WindowConfig { inherit_working_directory: Some(v), ..self }
    }

    pub fn inherit_font_size(self, v: bool) -> (r: Self)
        ensures
            r == (WindowConfig { inherit_font_size: Some(v), ..self }),
    {
        WindowConfig { inherit_font_size: Some(v), ..self }
    }

    pub fn initial_position(self, x: i32, y: i32) -> (r: Self)
        ensures
            r == (WindowConfig { initial_position: Some((x, y)), ..self }),
    {
        WindowConfig { initial_position: Some((x, y)), ..self }
    }

    /// Background opacity, given as its decimal text (e.g. `"0.9"`).
    pub fn opacity_text(self, text: &str) -> (r: Self)
        ensures
            opt_view(r.opacity) == Some(text@),
            r == (WindowConfig { opacity: r.opacity, ..self }),
    {
        WindowConfig { opacity: Some(owned(text)), ..self }
    }

    pub fn background_blur(self, radius: u32) -> (r: Self)
        ensures
            r == (WindowConfig { background_blur: Some(radius), ..self }),
    {
        WindowConfig { background_blur: Some(radius), ..self }
    }

    /// The `key = value` lines of the set options, in order.
    pub open spec fn spec_lines(&self) -> Seq<Seq<char>> {
        self.spec_size_lines() + self.spec_behaviour_lines()
    }

    /// The size, title, decoration, padding and color-space lines.
    pub open spec fn spec_size_lines(&self) -> Seq<Seq<char>> {
        kv_opt("window-width"@, num_val((match self.width { Some(n) => Some(n as nat), None => None })))
            + kv_opt("window-height"@, num_val((match self.height { Some(n) => Some(n as nat), None => None })))
            + kv_opt("title"@, opt_view(self.title))
            + kv_opt("window-decoration"@, (match self.decoration { Some(e) => Some(e.spec_text()), None => None }))
            + kv_opt("window-padding-x"@, num_val((match self.padding_x { Some(n) => Some(n as nat), None => None })))
            + kv_opt("window-padding-y"@, num_val((match self.padding_y { Some(n) => Some(n as nat), None => None })))
            + kv_opt("window-padding-balance"@, bool_val(self.padding_balance))
            + kv_opt("window-padding-color"@, (match self.padding_color { Some(e) => Some(e.spec_text()), None => None }))
    }

    /// The remaining lines: saved state, tabs, inheritance, position,
    /// opacity and blur.
    pub open spec fn spec_behaviour_lines(&self) -> Seq<Seq<char>> {
        kv_opt("window-colorspace"@, (match self.colorspace { Some(e) => Some(e.spec_text()), None => None }))
            + kv_opt("window-save-state"@, (match self.save_state { Some(e) => Some(e.spec_text()), None => None }))
            + kv_opt("window-new-tab-position"@, opt_view(self.new_tab_position))
            + kv_opt("window-inherit-working-directory"@, bool_val(self.inherit_working_directory))
            + kv_opt("window-inherit-font-size"@, bool_val(self.inherit_font_size))
            + kv_opt("window-initial-position"@, (match self.initial_position { Some((x, y)) => Some(int_str(x as int) + ","@ + int_str(y as int)), None => None }))
            + kv_opt("background-opacity"@, opt_view(self.opacity))
            + kv_opt("background-blur-radius"@, num_val((match self.background_blur { Some(n) => Some(n as nat), None => None })))

    }
}

impl GhosttyConfig for WindowConfig {
    open spec fn spec_render(&self, ctx: GhosttyRenderContext) -> Seq<char> {
        terminated(self.spec_lines())
    }

    #[verifier::rlimit(60)]
    fn render(&self, ctx: &GhosttyRenderContext) -> (r: String) {
        let mut lines: Vec<String> = Vec::new();
        push_kv_opt(&mut lines, "window-width", u32_value(self.width));
        push_kv_opt(&mut lines, "window-height", u32_value(self.height));
        push_kv_opt(&mut lines, "title", opt_string(&self.title));
        push_kv_opt(&mut lines, "window-decoration", (match self.decoration { Some(e) => Some(e.to_string()), None => None }));
        push_kv_opt(&mut lines, "window-padding-x", u32_value(self.padding_x));
        push_kv_opt(&mut lines, "window-padding-y", u32_value(self.padding_y));
        push_kv_opt(&mut lines, "window-padding-balance", bool_value(self.padding_balance));
        push_kv_opt(&mut lines, "window-padding-color", (match self.padding_color { Some(e) => Some(e.to_string()), None => None }));
        assert(views(lines@) =~= self.spec_size_lines());
        let mut rest: Vec<String> = Vec::new();
        push_kv_opt(&mut rest, "window-colorspace", (match self.colorspace { Some(e) => Some(e.to_string()), None => None }));
        push_kv_opt(&mut rest, "window-save-state", (match self.save_state { Some(e) => Some(e.to_string()), None => None }));
        push_kv_opt(&mut rest, "window-new-tab-position", opt_string(&self.new_tab_position));
        push_kv_opt(&mut rest, "window-inherit-working-directory", bool_value(self.inherit_working_directory));
        push_kv_opt(&mut rest, "window-inherit-font-size", bool_value(self.inherit_font_size));
        push_kv_opt(&mut rest, "window-initial-position", (match self.initial_position { Some((x, y)) => Some(cat3(i64_str(x as i64).as_str(), ",", i64_str(y as i64).as_str())), None => None }));
        push_kv_opt(&mut rest, "background-opacity", opt_string(&self.opacity));
        push_kv_opt(&mut rest, "background-blur-radius", u32_value(self.background_blur));
        assert(views(rest@) =~= self.spec_behaviour_lines());
        append_parts(&mut lines, rest);
        terminate_lines(&lines)
    }

    /// The opacity must lie in 0.0 – 1.0. A text that is not a decimal number
    /// (`NaN`, `inf`) fails the check as the number would.
    open spec fn spec_validate(&self) -> Result<(), Seq<char>> {
        match self.opacity {
            Some(t) => if decimal_within(t@, 0, 1) {
                Ok(())
            } else {
                Err("background-opacity must be 0.0–1.0, got "@ + t@)
            },
            None => Ok(()),
        }
    }

    fn validate(&self) -> (r: Result<(), String>) {
        match &self.opacity {
            Some(t) => {
                if decimal_in_range(t.as_str(), 0, 1) {
                    Ok(())
                } else {
                    Err(cat2("background-opacity must be 0.0–1.0, got ", t.as_str()))
                }
            },
            None => Ok(()),
        }
    }
}

} // verus!
