//! Font synthesis policy.
use vstd::prelude::*;
use crate::decimal::{decimal_at_most_zero, decimal_not_positive};
use crate::ghostty::context::{GhosttyConfig, GhosttyRenderContext};
use crate::text::{
    cat2,
    bool_val, bool_value, cat4, kv_opt, opt_string, opt_view, owned, prefixed, push_kv_opt,
    push_part, push_prefixed, terminate_lines, terminated, views,
};

verus! {

/// Which styles Ghostty may synthesize when a font lacks them.
#[derive(Clone, Copy, Debug)]
pub enum FontSyntheticStyle {
    /// Allow all synthetic styles (default).
    All,
    NoBold,
    NoItalic,
    NoBoldItalic,
    /// Disable all synthetic styles.
    False,
}

impl FontSyntheticStyle {
    /// The text this value is written as.
    pub open spec fn spec_text(&self) -> Seq<char> {
        match self {
            FontSyntheticStyle::All => "true"@,
            FontSyntheticStyle::NoBold => "no-bold"@,
            FontSyntheticStyle::NoItalic => "no-italic"@,
            FontSyntheticStyle::NoBoldItalic => "no-bold-italic"@,
            FontSyntheticStyle::False => "false"@,
        }
    }

    /// The text this value is written as.
    pub fn to_string(&self) -> (r: String)
        ensures
            r@ == self.spec_text(),
    {
        match self {
            FontSyntheticStyle::All => owned("true"),
            FontSyntheticStyle::NoBold => owned("no-bold"),
            FontSyntheticStyle::NoItalic => owned("no-italic"),
            FontSyntheticStyle::NoBoldItalic => owned("no-bold-italic"),
            FontSyntheticStyle::False => owned("false"),
        }
    }
}

/// The views of `(axis, value)` pairs.
pub open spec fn variation_views(v: Seq<(String, String)>) -> Seq<(Seq<char>, Seq<char>)> {
    Seq::new(v.len(), |i: int| (v[i].0@, v[i].1@))
}

/// `font-variation = axis=value` for each pair, in order.
pub open spec fn variation_lines(v: Seq<(Seq<char>, Seq<char>)>) -> Seq<Seq<char>> {
    Seq::new(v.len(), |i: int| "font-variation = "@ + v[i].0 + "="@ + v[i].1)
}

/// Font configuration for Ghostty.
///
/// Renders as `font-family`, `font-size`, `font-style*`, `font-feature`,
/// `font-variation` and related entries.
#[derive(Clone, Debug)]
pub struct FontConfig {
    pub family: Option<String>,
    pub family_bold: Option<String>,
    pub family_italic: Option<String>,
    pub family_bold_italic: Option<String>,
    /// Point size as decimal text (e.g. `"13"`, `"13.5"`).
    pub size: Option<String>,
    pub style: Option<String>,
    pub style_bold: Option<String>,
    pub style_italic: Option<String>,
    pub style_bold_italic: Option<String>,
    /// OpenType feature tags, e.g. `"calt"`, `"-liga"`.
    pub features: Vec<String>,
    /// Variation axis overrides: `(axis-tag, value as decimal text)`.
    pub variations: Vec<(String, String)>,
    /// macOS only: render fonts slightly heavier.
    pub thicken: Option<bool>,
    pub synthetic_style: Option<FontSyntheticStyle>,
}

impl Default for FontConfig {
    fn default() -> (r: Self)
        ensures
            r.family is None,
            r.family_bold is None,
            r.family_italic is None,
            r.family_bold_italic is None,
            r.size is None,
            r.style is None,
            r.style_bold is None,
            r.style_italic is None,
            r.style_bold_italic is None,
            r.features@.len() == 0,
            r.variations@.len() == 0,
            r.thicken is None,
            r.synthetic_style is None,
    {
        FontConfig { family: None, family_bold: None, family_italic: None, family_bold_italic: None, size: None, style: None, style_bold: None, style_italic: None, style_bold_italic: None, features: Vec::new(), variations: Vec::new(), thicken: None, synthetic_style: None }
    }
}

impl FontConfig {
    pub fn new() -> (r: Self)
        ensures
            r.family is None,
            r.family_bold is None,
            r.family_italic is None,
            r.family_bold_italic is None,
            r.size is None,
            r.style is None,
            r.style_bold is None,
            r.style_italic is None,
            r.style_bold_italic is None,
            r.features@.len() == 0,
            r.variations@.len() == 0,
            r.thicken is None,
            r.synthetic_style is None,
    {
        Self::default()
    }

    pub fn family(self, v: &str) -> (r: Self)
        ensures
            opt_view(r.family) == Some(v@),
            r == (FontConfig { family: r.family, ..self }),
    {
        FontConfig { family: Some(owned(v)), ..self }
    }

    pub fn family_bold(self, v: &str) -> (r: Self)
        ensures
            opt_view(r.family_bold) == Some(v@),
            r == (FontConfig { family_bold: r.family_bold, ..self }),
    {
        FontConfig { family_bold: Some(owned(v)), ..self }
    }

    pub fn family_italic(self, v: &str) -> (r: Self)
        ensures
            opt_view(r.family_italic) == Some(v@),
            r == (FontConfig { family_italic: r.family_italic, ..self }),
    {
        FontConfig { family_italic: Some(owned(v)), ..self }
    }

    pub fn family_bold_italic(self, v: &str) -> (r: Self)
        ensures
            opt_view(r.family_bold_italic) == Some(v@),
            r == (FontConfig { family_bold_italic: r.family_bold_italic, ..self }),
    {
        FontConfig { family_bold_italic: Some(owned(v)), ..self }
    }

    /// Point size, given as its decimal text (e.g. `"13.5"`).
    pub fn size_text(self, text: &str) -> (r: Self)
        ensures
            opt_view(r.size) == Some(text@),
            r == (FontConfig { size: r.size, ..self }),
    {
        FontConfig { size: Some(owned(text)), ..self }
    }

    pub fn style(self, v: &str) -> (r: Self)
        ensures
            opt_view(r.style) == Some(v@),
            r == (FontConfig { style: r.style, ..self }),
    {
        FontConfig { style: Some(owned(v)), ..self }
    }

    pub fn style_bold(self, v: &str) -> (r: Self)
        ensures
            opt_view(r.style_bold) == Some(v@),
            r == (FontConfig { style_bold: r.style_bold, ..self }),
    {
        FontConfig { style_bold: Some(owned(v)), ..self }
    }

    pub fn style_italic(self, v: &str) -> (r: Self)
        ensures
            opt_view(r.style_italic) == Some(v@),
            r == (FontConfig { style_italic: r.style_italic, ..self }),
    {
        FontConfig { style_italic: Some(owned(v)), ..self }
    }

    pub fn style_bold_italic(self, v: &str) -> (r: Self)
        ensures
            opt_view(r.style_bold_italic) == Some(v@),
            r == (FontConfig { style_bold_italic: r.style_bold_italic, ..self }),
    {
        FontConfig { style_bold_italic: Some(owned(v)), ..self }
    }

    /// Add an OpenType feature tag, e.g. `"calt"` or `"-liga"`.
    pub fn add_feature(self, feat: &str) -> (r: Self)
        ensures
            views(r.features@) == views(self.features@).push(feat@),
            r == (FontConfig { features: r.features, ..self }),
    {
        let mut features = self.features;
        push_part(&mut features, owned(feat));
        FontConfig { features, ..self }
    }

    /// Add a variation axis override, the value given as its decimal text,
    /// e.g. `("wght", "450")`.
    pub fn add_variation_text(self, axis: &str, value: &str) -> (r: Self)
        ensures
            variation_views(r.variations@) == variation_views(self.variations@).push((axis@, value@)),
            r == (FontConfig { variations: r.variations, ..self }),
    {
        let mut variations = self.variations;
        variations.push((owned(axis), owned(value)));
        proof {
            assert(variation_views(variations@) =~= variation_views(self.variations@).push((axis@, value@)));
        }
        FontConfig { variations, ..self }
    }

    pub fn thicken(self, v: bool) -> (r: Self)
        ensures
            r == (FontConfig { thicken: Some(v), ..self }),
    {
        FontConfig { thicken: Some(v), ..self }
    }

    pub fn synthetic_style(self, v: FontSyntheticStyle) -> (r: Self)
        ensures
            r == (FontConfig { synthetic_style: Some(v), ..self }),
    {
        FontConfig { synthetic_style: Some(v), ..self }
    }

    /// The `key = value` lines of the set options, in order.
    pub open spec fn spec_lines(&self) -> Seq<Seq<char>> {
        kv_opt("font-family"@, opt_view(self.family))
            + kv_opt("font-family-bold"@, opt_view(self.family_bold))
            + kv_opt("font-family-italic"@, opt_view(self.family_italic))
            + kv_opt("font-family-bold-italic"@, opt_view(self.family_bold_italic))
            + kv_opt("font-size"@, opt_view(self.size))
            + kv_opt("font-style"@, opt_view(self.style))
            + kv_opt("font-style-bold"@, opt_view(self.style_bold))
            + kv_opt("font-style-italic"@, opt_view(self.style_italic))
            + kv_opt("font-style-bold-italic"@, opt_view(self.style_bold_italic))
            + prefixed("font-feature = "@, views(self.features@))
            + variation_lines(variation_views(self.variations@))
            + kv_opt("font-thicken"@, bool_val(self.thicken))
            + kv_opt("font-synthetic-style"@, (match self.synthetic_style { Some(e) => Some(e.spec_text()), None => None }))
    }
}

impl GhosttyConfig for FontConfig {
    open spec fn spec_render(&self, ctx: GhosttyRenderContext) -> Seq<char> {
        terminated(self.spec_lines())
    }

    fn render(&self, ctx: &GhosttyRenderContext) -> (r: String) {
        let mut lines: Vec<String> = Vec::new();
        push_kv_opt(&mut lines, "font-family", opt_string(&self.family));
        push_kv_opt(&mut lines, "font-family-bold", opt_string(&self.family_bold));
        push_kv_opt(&mut lines, "font-family-italic", opt_string(&self.family_italic));
        push_kv_opt(&mut lines, "font-family-bold-italic", opt_string(&self.family_bold_italic));
        push_kv_opt(&mut lines, "font-size", opt_string(&self.size));
        push_kv_opt(&mut lines, "font-style", opt_string(&self.style));
        push_kv_opt(&mut lines, "font-style-bold", opt_string(&self.style_bold));
        push_kv_opt(&mut lines, "font-style-italic", opt_string(&self.style_italic));
        push_kv_opt(&mut lines, "font-style-bold-italic", opt_string(&self.style_bold_italic));
        push_prefixed(&mut lines, "font-feature = ", &self.features);
        let ghost start = views(lines@);
        let ghost vv = variation_views(self.variations@);
        let mut i: usize = 0;
        while i < self.variations.len()
            invariant
                i <= self.variations@.len(),
                vv == variation_views(self.variations@),
                views(lines@) == start + variation_lines(vv.take(i as int)),
            decreases self.variations@.len() - i,
        {
            let pair = &self.variations[i];
            push_part(&mut lines, cat4("font-variation = ", pair.0.as_str(), "=", pair.1.as_str()));
            assert(variation_lines(vv.take(i + 1)) =~= variation_lines(vv.take(i as int)).push(
                "font-variation = "@ + vv[i as int].0 + "="@ + vv[i as int].1,
            ));
            i = i + 1;
        }
        assert(vv.take(self.variations@.len() as int) =~= vv);
        push_kv_opt(&mut lines, "font-thicken", bool_value(self.thicken));
        push_kv_opt(&mut lines, "font-synthetic-style", (match self.synthetic_style { Some(e) => Some(e.to_string()), None => None }));
        assert(views(lines@) =~= self.spec_lines());
        terminate_lines(&lines)
    }

    /// The size must be above zero. A text that is not a decimal number
    /// (`NaN`, `inf`) fails the check as the number would.
    open spec fn spec_validate(&self) -> Result<(), Seq<char>> {
        match self.size {
            Some(t) => if !decimal_at_most_zero(t@) {
                Ok(())
            } else {
                Err("font-size must be > 0, got "@ + t@)
            },
            None => Ok(()),
        }
    }

    fn validate(&self) -> (r: Result<(), String>) {
        match &self.size {
            Some(t) => {
                if !decimal_not_positive(t.as_str()) {
                    Ok(())
                } else {
                    Err(cat2("font-size must be > 0, got ", t.as_str()))
                }
            },
            None => Ok(()),
        }
    }
}

} // verus!
