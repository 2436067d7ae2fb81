//! GTK 3/4 `settings.ini` and `gtk.css` generation.
use vstd::prelude::*;
use crate::ini::{section_lines, IniConfig, IniEntry, IniFile, IniRenderContext, IniSection};
use crate::text::{
    join, join_strings, nat_str, opt_as_str, opt_str_view, opt_view, owned, push_str_part, u64_str,
    views,
};

verus! {

/// GTK major version selector.
#[derive(Debug, Clone, Copy, PartialEq, Eq, Structural)]
pub enum GtkVersion {
    Gtk3,
    Gtk4,
}

impl GtkVersion {
    pub open spec fn spec_config_dir(self) -> Seq<char> {
        match self {
            GtkVersion::Gtk3 => "gtk-3.0"@,
            GtkVersion::Gtk4 => "gtk-4.0"@,
        }
    }

    pub fn config_dir(self) -> (r: &'static str)
        ensures
            r@ == self.spec_config_dir(),
    {
        match self {
            GtkVersion::Gtk3 => "gtk-3.0",
            GtkVersion::Gtk4 => "gtk-4.0",
        }
    }
}

/// Font hinting style for GTK Xft settings.
#[derive(Debug, Clone, Copy, PartialEq, Eq, Structural)]
pub enum HintStyle {
    HintNone,
    Slight,
    Medium,
    Full,
}

impl HintStyle {
    pub open spec fn spec_text(self) -> Seq<char> {
        match self {
            HintStyle::HintNone => "hintnone"@,
            HintStyle::Slight => "hintslight"@,
            HintStyle::Medium => "hintmedium"@,
            HintStyle::Full => "hintfull"@,
        }
    }

    /// The text written for this value in `settings.ini`.
    pub fn to_str(self) -> (r: &'static str)
        ensures
            r@ == self.spec_text(),
    {
        match self {
            HintStyle::HintNone => "hintnone",
            HintStyle::Slight => "hintslight",
            HintStyle::Medium => "hintmedium",
            HintStyle::Full => "hintfull",
        }
    }
}

/// Subpixel rendering method for GTK Xft settings.
#[derive(Debug, Clone, Copy, PartialEq, Eq, Structural)]
pub enum RgbaMethod {
    RgbaNone,
    Rgb,
    Bgr,
    Vrgb,
    Vbgr,
}

impl RgbaMethod {
    pub open spec fn spec_text(self) -> Seq<char> {
        match self {
            RgbaMethod::RgbaNone => "none"@,
            RgbaMethod::Rgb => "rgb"@,
            RgbaMethod::Bgr => "bgr"@,
            RgbaMethod::Vrgb => "vrgb"@,
            RgbaMethod::Vbgr => "vbgr"@,
        }
    }

    /// The text written for this value in `settings.ini`.
    pub fn to_str(self) -> (r: &'static str)
        ensures
            r@ == self.spec_text(),
    {
        match self {
            RgbaMethod::RgbaNone => "none",
            RgbaMethod::Rgb => "rgb",
            RgbaMethod::Bgr => "bgr",
            RgbaMethod::Vrgb => "vrgb",
            RgbaMethod::Vbgr => "vbgr",
        }
    }
}

/// GTK `settings.ini` configuration builder.
///
/// Every field is optional; only fields that are `Some` are emitted.
/// Call [`generate`](IniConfig::generate) or
/// [`render`](IniConfig::render) to produce the INI text.
#[derive(Debug, Clone)]
pub struct GtkSettings {
    /// Target GTK version (required for [`validate`](IniConfig::validate)).
    pub version: Option<GtkVersion>,
    pub theme_name: Option<String>,
    pub icon_theme: Option<String>,
    pub cursor_theme: Option<String>,
    pub cursor_size: Option<u32>,
    /// Full GTK font spec, e.g. `"Noto Sans 11"`.
    pub font: Option<String>,
    pub prefer_dark: Option<bool>,
    pub antialias: Option<bool>,
    pub hinting: Option<bool>,
    pub hint_style: Option<HintStyle>,
    pub rgba: Option<RgbaMethod>,
    pub toolbar_style: Option<String>,
    pub button_images: Option<bool>,
    pub menu_images: Option<bool>,
}

/// `key=value` as a one-element sequence, or nothing when there is no value.
pub open spec fn kv_line(key: Seq<char>, value: Option<Seq<char>>) -> Seq<Seq<char>> {
    match value {
        Some(v) => seq![key + "="@ + v],
        None => Seq::empty(),
    }
}

/// The `key=value` lines of a list of entries.
pub open spec fn entry_lines(entries: Seq<IniEntry>) -> Seq<Seq<char>> {
    Seq::new(entries.len(), |i: int| entries[i].key@ + "="@ + entries[i].value@)
}

/// `1` for true, `0` for false.
pub open spec fn flag_digit(b: bool) -> Seq<char> {
    if b {
        "1"@
    } else {
        "0"@
    }
}

fn flag_text(b: bool) -> (r: &'static str)
    ensures
        r@ == flag_digit(b),
{
    if b {
        "1"
    } else {
        "0"
    }
}

fn add_opt(sec: IniSection, key: &str, value: Option<&str>) -> (r: IniSection)
    ensures
        r.name == sec.name,
        entry_lines(r.entries@) == entry_lines(sec.entries@) + kv_line(key@, opt_str_view(value)),
{
    match value {
        Some(v) => {
            let r = sec.set(key, v);
            assert(entry_lines(r.entries@) =~= entry_lines(sec.entries@) + kv_line(
                key@,
                opt_str_view(value),
            ));
            r
        },
        None => {
            assert(entry_lines(sec.entries@) =~= entry_lines(sec.entries@) + kv_line(
                key@,
                opt_str_view(value),
            ));
            sec
        },
    }
}

/// The text of an optional boolean as `1`/`0`.
pub open spec fn opt_flag(o: Option<bool>) -> Option<Seq<char>> {
    match o {
        Some(b) => Some(flag_digit(b)),
        None => None,
    }
}

fn opt_flag_text(o: Option<bool>) -> (r: Option<&'static str>)
    ensures
        opt_str_view(r) == opt_flag(o),
{
    match o {
        Some(b) => Some(flag_text(b)),
        None => None,
    }
}

impl GtkSettings {
    pub fn new(version: GtkVersion) -> (r: Self)
        ensures
            r == (GtkSettings { version: Some(version), ..GtkSettings::spec_empty() }),
    {
        GtkSettings {
            version: Some(version),
            theme_name: None,
            icon_theme: None,
            cursor_theme: None,
            cursor_size: None,
            font: None,
            prefer_dark: None,
            antialias: None,
            hinting: None,
            hint_style: None,
            rgba: None,
            toolbar_style: None,
            button_images: None,
            menu_images: None,
        }
    }

    /// Settings with every field unset.
    pub open spec fn spec_empty() -> Self {
        GtkSettings {
            version: None,
            theme_name: None,
            icon_theme: None,
            cursor_theme: None,
            cursor_size: None,
            font: None,
            prefer_dark: None,
            antialias: None,
            hinting: None,
            hint_style: None,
            rgba: None,
            toolbar_style: None,
            button_images: None,
            menu_images: None,
        }
    }

    pub fn theme(self, name: &str) -> (r: Self)
        ensures
            opt_view(r.theme_name) == Some(name@),
            r == (GtkSettings { theme_name: r.theme_name, ..self }),
    {
        GtkSettings { theme_name: Some(owned(name)), ..self }
    }
    pub fn icon_theme(self, name: &str) -> (r: Self)
        ensures
            opt_view(r.icon_theme) == Some(name@),
            r == (GtkSettings { icon_theme: r.icon_theme, ..self }),
    {
        GtkSettings { icon_theme: Some(owned(name)), ..self }
    }
    pub fn cursor_theme(self, name: &str) -> (r: Self)
        ensures
            opt_view(r.cursor_theme) == Some(name@),
            r == (GtkSettings { cursor_theme: r.cursor_theme, ..self }),
    {
        GtkSettings { cursor_theme: Some(owned(name)), ..self }
    }
    pub fn cursor_size(self, size: u32) -> (r: Self)
        ensures
            r == (GtkSettings { cursor_size: Some(size), ..self }),
    {
        GtkSettings { cursor_size: Some(size), ..self }
    }
    pub fn font(self, spec: &str) -> (r: Self)
        ensures
            opt_view(r.font) == Some(spec@),
            r == (GtkSettings { font: r.font, ..self }),
    {
        GtkSettings { font: Some(owned(spec)), ..self }
    }
    pub fn prefer_dark(self, v: bool) -> (r: Self)
        ensures
            r == (GtkSettings { prefer_dark: Some(v), ..self }),
    {
        GtkSettings { prefer_dark: Some(v), ..self }
    }
    pub fn antialias(self, v: bool) -> (r: Self)
        ensures
            r == (GtkSettings { antialias: Some(v), ..self }),
    {
        GtkSettings { antialias: Some(v), ..self }
    }
    pub fn hinting(self, v: bool) -> (r: Self)
        ensures
            r == (GtkSettings { hinting: Some(v), ..self }),
    {
        GtkSettings { hinting: Some(v), ..self }
    }
    pub fn hint_style(self, s: HintStyle) -> (r: Self)
        ensures
            r == (GtkSettings { hint_style: Some(s), ..self }),
    {
        GtkSettings { hint_style: Some(s), ..self }
    }
    pub fn rgba(self, m: RgbaMethod) -> (r: Self)
        ensures
            r == (GtkSettings { rgba: Some(m), ..self }),
    {
        GtkSettings { rgba: Some(m), ..self }
    }
    pub fn toolbar_style(self, s: &str) -> (r: Self)
        ensures
            opt_view(r.toolbar_style) == Some(s@),
            r == (GtkSettings { toolbar_style: r.toolbar_style, ..self }),
    {
        GtkSettings { toolbar_style: Some(owned(s)), ..self }
    }
    pub fn button_images(self, v: bool) -> (r: Self)
        ensures
            r == (GtkSettings { button_images: Some(v), ..self }),
    {
        GtkSettings { button_images: Some(v), ..self }
    }
    pub fn menu_images(self, v: bool) -> (r: Self)
        ensures
            r == (GtkSettings { menu_images: Some(v), ..self }),
    {
        GtkSettings { menu_images: Some(v), ..self }
    }

    /// The `key=value` lines of the `[Settings]` section, in order.
    pub open spec fn spec_lines(self) -> Seq<Seq<char>> {
        kv_line("gtk-theme-name"@, opt_view(self.theme_name)) + kv_line(
            "gtk-icon-theme-name"@,
            opt_view(self.icon_theme),
        ) + kv_line("gtk-cursor-theme-name"@, opt_view(self.cursor_theme)) + kv_line(
            "gtk-cursor-theme-size"@,
            match self.cursor_size {
                Some(n) => Some(nat_str(n as nat)),
                None => None,
            },
        ) + kv_line("gtk-font-name"@, opt_view(self.font)) + kv_line(
            "gtk-application-prefer-dark-theme"@,
            opt_flag(self.prefer_dark),
        ) + kv_line("gtk-button-images"@, opt_flag(self.button_images)) + kv_line(
            "gtk-menu-images"@,
            opt_flag(self.menu_images),
        ) + kv_line("gtk-toolbar-style"@, opt_view(self.toolbar_style)) + kv_line(
            "gtk-xft-antialias"@,
            opt_flag(self.antialias),
        ) + kv_line("gtk-xft-hinting"@, opt_flag(self.hinting)) + kv_line(
            "gtk-xft-hintstyle"@,
            match self.hint_style {
                Some(h) => Some(h.spec_text()),
                None => None,
            },
        ) + kv_line(
            "gtk-xft-rgba"@,
            match self.rgba {
                Some(m) => Some(m.spec_text()),
                None => None,
            },
        )
    }
}

impl IniConfig for GtkSettings {
    open spec fn spec_render(&self, ctx: IniRenderContext) -> Seq<char> {
        join(seq!["[Settings]"@] + self.spec_lines(), "\n"@)
    }

    open spec fn spec_validate(&self) -> Result<(), Seq<char>> {
        if self.version is None {
            Err("GtkSettings: version must be set"@)
        } else {
            Ok(())
        }
    }

    #[verifier::rlimit(40)]
    fn render(&self, ctx: &IniRenderContext) -> (r: String) {
        let section = IniSection::new("Settings");
        let section = add_opt(section, "gtk-theme-name", opt_as_str(&self.theme_name));
        let section = add_opt(section, "gtk-icon-theme-name", opt_as_str(&self.icon_theme));
        let section = add_opt(section, "gtk-cursor-theme-name", opt_as_str(&self.cursor_theme));
        let size = match self.cursor_size {
            Some(n) => Some(u64_str(n as u64)),
            None => None,
        };
        let section = add_opt(section, "gtk-cursor-theme-size", opt_as_str(&size));
        let section = add_opt(section, "gtk-font-name", opt_as_str(&self.font));
        let section = add_opt(
            section,
            "gtk-application-prefer-dark-theme",
            opt_flag_text(self.prefer_dark),
        );
        let section = add_opt(section, "gtk-button-images", opt_flag_text(self.button_images));
        let section = add_opt(section, "gtk-menu-images", opt_flag_text(self.menu_images));
        let section = add_opt(section, "gtk-toolbar-style", opt_as_str(&self.toolbar_style));
        let section = add_opt(section, "gtk-xft-antialias", opt_flag_text(self.antialias));
        let section = add_opt(section, "gtk-xft-hinting", opt_flag_text(self.hinting));
        let hs = match self.hint_style {
            Some(h) => Some(h.to_str()),
            None => None,
        };
        let section = add_opt(section, "gtk-xft-hintstyle", hs);
        let rg = match self.rgba {
            Some(m) => Some(m.to_str()),
            None => None,
        };
        let section = add_opt(section, "gtk-xft-rgba", rg);
        assert(entry_lines(section.entries@) =~= self.spec_lines());
        assert(section_lines(section.name@, section.entries@) =~= seq!["["@ + section.name@ + "]"@]
            + entry_lines(section.entries@));
        let file = IniFile::new().section(section);
        let r = file.render(ctx);
        proof {
            let parts = Seq::new(
                file.sections@.len(),
                |i: int| file.sections@[i].spec_render(*ctx),
            );
            assert(parts =~= seq![section.spec_render(*ctx)]);
            reveal_strlit("[");
            reveal_strlit("]");
            reveal_strlit("Settings");
            reveal_strlit("[Settings]");
            assert("["@ + "Settings"@ + "]"@ =~= "[Settings]"@);
        }
        r
    }

    fn validate(&self) -> (r: Result<(), String>) {
        if self.version.is_none() {
            return Err(owned("GtkSettings: version must be set"));
        }
        Ok(())
    }
}

/// Raw CSS to write as `gtk.css` alongside the settings file.
///
/// Useful for per-application colour overrides, border-radius adjustments, etc.
#[derive(Debug, Clone)]
pub struct GtkCss {
    pub rules: Vec<String>,
}

impl Default for GtkCss {
    fn default() -> (r: Self)
        ensures
            r.rules@.len() == 0,
    {
        GtkCss { rules: Vec::new() }
    }
}

impl GtkCss {
    pub fn new() -> (r: Self)
        ensures
            r.rules@.len() == 0,
    {
        Self::default()
    }

    /// Append a raw CSS rule block.
    pub fn rule(self, css: &str) -> (r: Self)
        ensures
            views(r.rules@) == views(self.rules@).push(css@),
    {
        let mut s = self;
        push_str_part(&mut s.rules, css);
        s
    }

    /// Render the complete CSS file contents (not INI — just plain CSS text).
    pub fn generate(&self) -> (r: String)
        ensures
            r@ == join(views(self.rules@), "\n\n"@),
    {
        join_strings(&self.rules, "\n\n")
    }
}

} // verus!
