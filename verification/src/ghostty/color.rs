//! Colors and themes.
use vstd::prelude::*;
use crate::decimal::{decimal_in_range, decimal_within};
use crate::ghostty::context::{GhosttyConfig, GhosttyRenderContext};
use crate::text::{
    cat2,
    cat3, cat4, kv_opt, nat_str, opt_string, opt_view, owned, push_kv_opt, push_part,
    terminate_lines, terminated, u64_str, views,
};

verus! {

/// A validated 6-digit hex color, e.g. `#1e1e2e`.
#[derive(Clone, Debug)]
pub struct HexColor(pub String);

/// Whether `c` is an ASCII hexadecimal digit.
pub open spec fn is_hex_digit(c: char) -> bool {
    ('0' <= c && c <= '9') || ('a' <= c && c <= 'f') || ('A' <= c && c <= 'F')
}

/// `#` followed by exactly six hexadecimal digits.
pub open spec fn valid_hex_color(s: Seq<char>) -> bool {
    &&& s.len() == 7
    &&& s[0] == '#'
    &&& forall|i: int| 1 <= i < 7 ==> #[trigger] is_hex_digit(s[i])
}

/// The message of the error for a malformed color.
pub open spec fn hex_color_error(s: Seq<char>) -> Seq<char> {
    "invalid hex color '"@ + s + "': expected #rrggbb"@
}

impl HexColor {
    /// Parse and validate a hex color string (`#rrggbb`).
    pub fn new(color: &str) -> (r: Result<Self, String>)
        ensures
            valid_hex_color(color@) ==> (r matches Ok(c) && c.0@ == color@),
            !valid_hex_color(color@) ==> (r matches Err(e) && e@ == hex_color_error(color@)),
    {
        if Self::is_valid(color) {
            Ok(HexColor(owned(color)))
        } else {
            Err(cat3("invalid hex color '", color, "': expected #rrggbb"))
        }
    }

    fn is_valid(s: &str) -> (r: bool)
        ensures
            r == valid_hex_color(s@),
    {
        let n = s.unicode_len();
        if n != 7 {
            return false;
        }
        if s.get_char(0) != '#' {
            return false;
        }
        let mut i: usize = 1;
        while i < 7
            invariant
                n == 7,
                s@.len() == 7,
                1 <= i <= 7,
                forall|k: int| 1 <= k < i ==> #[trigger] is_hex_digit(s@[k]),
            decreases 7 - i,
        {
            let c = s.get_char(i);
            if !(('0' <= c && c <= '9') || ('a' <= c && c <= 'f') || ('A' <= c && c <= 'F')) {
                assert(!is_hex_digit(s@[i as int]));
                return false;
            }
            i = i + 1;
        }
        true
    }

    /// The color as written in the config.
    pub fn to_string(&self) -> (r: String)
        ensures
            r@ == self.0@,
    {
        owned(self.0.as_str())
    }
}

/// A theme: a single name, or a dark/light pair.
#[derive(Clone, Debug)]
pub enum ThemeSpec {
    Single(String),
    DarkLight { dark: String, light: String },
}

impl ThemeSpec {
    pub fn single(name: &str) -> (r: Self)
        ensures
            r matches ThemeSpec::Single(n) && n@ == name@,
    {
        ThemeSpec::Single(owned(name))
    }

    pub fn dark_light(dark: &str, light: &str) -> (r: Self)
        ensures
            r matches ThemeSpec::DarkLight { dark: d, light: l } && d@ == dark@ && l@ == light@,
    {
        ThemeSpec::DarkLight { dark: owned(dark), light: owned(light) }
    }

    /// The theme as written in the config.
    pub open spec fn spec_text(&self) -> Seq<char> {
        match self {
            ThemeSpec::Single(name) => name@,
            ThemeSpec::DarkLight { dark, light } => "dark:"@ + dark@ + ",light:"@ + light@,
        }
    }

    /// The theme as written in the config.
    pub fn to_string(&self) -> (r: String)
        ensures
            r@ == self.spec_text(),
    {
        match self {
            ThemeSpec::Single(name) => owned(name.as_str()),
            ThemeSpec::DarkLight { dark, light } => cat4(
                "dark:",
                dark.as_str(),
                ",light:",
                light.as_str(),
            ),
        }
    }
}

/// `palette = index=color`.
pub open spec fn palette_line(e: (u8, HexColor)) -> Seq<char> {
    "palette = "@ + nat_str(e.0 as nat) + "="@ + e.1.0@
}

/// The palette lines of `entries`, in order.
pub open spec fn palette_lines(entries: Seq<(u8, HexColor)>) -> Seq<Seq<char>> {
    Seq::new(entries.len(), |i: int| palette_line(entries[i]))
}

/// Color and theme configuration for Ghostty.
///
/// Renders as a group of `theme`, `background`, `foreground`,
/// `selection-background`, `selection-foreground`, `minimum-contrast` and
/// `palette` entries.
#[derive(Clone, Debug)]
pub struct ColorConfig {
    pub theme: Option<ThemeSpec>,
    pub background: Option<HexColor>,
    pub foreground: Option<HexColor>,
    pub selection_background: Option<HexColor>,
    pub selection_foreground: Option<HexColor>,
    /// Minimum contrast ratio as decimal text (1.0 – 21.0).
    pub minimum_contrast: Option<String>,
    /// Per-index palette overrides: `(index 0–255, color)`.
    pub palette: Vec<(u8, HexColor)>,
}

impl Default for ColorConfig {
    fn default() -> (r: Self)
        ensures
            r.theme is None,
            r.background is None,
            r.foreground is None,
            r.selection_background is None,
            r.selection_foreground is None,
            r.minimum_contrast is None,
            r.palette@.len() == 0,
    {
        ColorConfig { theme: None, background: None, foreground: None, selection_background: None, selection_foreground: None, minimum_contrast: None, palette: Vec::new() }
    }
}

impl ColorConfig {
    pub fn new() -> (r: Self)
        ensures
            r.theme is None,
            r.background is None,
            r.foreground is None,
            r.selection_background is None,
            r.selection_foreground is None,
            r.minimum_contrast is None,
            r.palette@.len() == 0,
    {
        Self::default()
    }

    pub fn theme(self, t: ThemeSpec) -> (r: Self)
        ensures
            r == (ColorConfig { theme: Some(t), ..self }),
    {
        ColorConfig { theme: Some(t), ..self }
    }

    pub fn background(self, c: HexColor) -> (r: Self)
        ensures
            r == (ColorConfig { background: Some(c), ..self }),
    {
        ColorConfig { background: Some(c), ..self }
    }

    pub fn foreground(self, c: HexColor) -> (r: Self)
        ensures
            r == (ColorConfig { foreground: Some(c), ..self }),
    {
        ColorConfig { foreground: Some(c), ..self }
    }

    pub fn selection_background(self, c: HexColor) -> (r: Self)
        ensures
            r == (ColorConfig { selection_background: Some(c), ..self }),
    {
        ColorConfig { selection_background: Some(c), ..self }
    }

    pub fn selection_foreground(self, c: HexColor) -> (r: Self)
        ensures
            r == (ColorConfig { selection_foreground: Some(c), ..self }),
    {
        ColorConfig { selection_foreground: Some(c), ..self }
    }

    /// Minimum contrast ratio, given as its decimal text (e.g. `"1.5"`).
    pub fn minimum_contrast_text(self, text: &str) -> (r: Self)
        ensures
            opt_view(r.minimum_contrast) == Some(text@),
            r == (ColorConfig { minimum_contrast: r.minimum_contrast, ..self }),
    {
        ColorConfig { minimum_contrast: Some(owned(text)), ..self }
    }

    /// Add a palette override for index `index` (0–255).
    pub fn palette_entry(self, index: u8, color: HexColor) -> (r: Self)
        ensures
            r.palette@ == self.palette@.push((index, color)),
            r == (ColorConfig { palette: r.palette, ..self }),
    {
        let mut palette = self.palette;
        palette.push((index, color));
        ColorConfig { palette, ..self }
    }

    /// The `key = value` lines of the set options, in order.
    pub open spec fn spec_lines(&self) -> Seq<Seq<char>> {
        kv_opt("theme"@, (match self.theme { Some(e) => Some(e.spec_text()), None => None }))
            + kv_opt("background"@, (match self.background { Some(c) => Some(c.0@), None => None }))
            + kv_opt("foreground"@, (match self.foreground { Some(c) => Some(c.0@), None => None }))
            + kv_opt("selection-background"@, (match self.selection_background { Some(c) => Some(c.0@), None => None }))
            + kv_opt("selection-foreground"@, (match self.selection_foreground { Some(c) => Some(c.0@), None => None }))
            + kv_opt("minimum-contrast"@, opt_view(self.minimum_contrast))
            + palette_lines(self.palette@)
    }
}

impl GhosttyConfig for ColorConfig {
    open spec fn spec_render(&self, ctx: GhosttyRenderContext) -> Seq<char> {
        terminated(self.spec_lines())
    }

    fn render(&self, ctx: &GhosttyRenderContext) -> (r: String) {
        let mut lines: Vec<String> = Vec::new();
        push_kv_opt(&mut lines, "theme", (match &self.theme { Some(e) => Some(e.to_string()), None => None }));
        push_kv_opt(&mut lines, "background", (match &self.background { Some(c) => Some(c.to_string()), None => None }));
        push_kv_opt(&mut lines, "foreground", (match &self.foreground { Some(c) => Some(c.to_string()), None => None }));
        push_kv_opt(&mut lines, "selection-background", (match &self.selection_background { Some(c) => Some(c.to_string()), None => None }));
        push_kv_opt(&mut lines, "selection-foreground", (match &self.selection_foreground { Some(c) => Some(c.to_string()), None => None }));
        push_kv_opt(&mut lines, "minimum-contrast", opt_string(&self.minimum_contrast));
        let ghost start = views(lines@);
        let mut i: usize = 0;
        while i < self.palette.len()
            invariant
                i <= self.palette@.len(),
                views(lines@) == start + palette_lines(self.palette@.take(i as int)),
            decreases self.palette@.len() - i,
        {
            let entry = &self.palette[i];
            let idx = u64_str(entry.0 as u64);
            push_part(&mut lines, cat4("palette = ", idx.as_str(), "=", entry.1.0.as_str()));
            assert(palette_lines(self.palette@.take(i + 1)) =~= palette_lines(
                self.palette@.take(i as int),
            ).push(palette_line(self.palette@[i as int])));
            i = i + 1;
        }
        assert(self.palette@.take(self.palette@.len() as int) =~= self.palette@);
        assert(views(lines@) =~= self.spec_lines());
        terminate_lines(&lines)
    }

    /// The minimum contrast must lie in 1.0 – 21.0. A text that is not a decimal number
    /// (`NaN`, `inf`) fails the check as the number would.
    open spec fn spec_validate(&self) -> Result<(), Seq<char>> {
        match self.minimum_contrast {
            Some(t) => if decimal_within(t@, 1, 21) {
                Ok(())
            } else {
                Err("minimum-contrast must be 1.0–21.0, got "@ + t@)
            },
            None => Ok(()),
        }
    }

    fn validate(&self) -> (r: Result<(), String>) {
        match &self.minimum_contrast {
            Some(t) => {
                if decimal_in_range(t.as_str(), 1, 21) {
                    Ok(())
                } else {
                    Err(cat2("minimum-contrast must be 1.0–21.0, got ", t.as_str()))
                }
            },
            None => Ok(()),
        }
    }
}

} // verus!
