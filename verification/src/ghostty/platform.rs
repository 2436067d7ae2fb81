//! Platform-specific options (GTK and macOS).
use vstd::prelude::*;
use crate::ghostty::context::{GhosttyConfig, GhosttyRenderContext};
use crate::text::{
    bool_val, bool_value, kv_opt, owned, push_kv_opt, terminate_lines, terminated, views,
};

verus! {

/// Where the tab bar is rendered in the GTK frontend.
#[derive(Clone, Copy, Debug)]
pub enum GtkTabsLocation {
    Top,
    Bottom,
    Left,
    Right,
    Hidden,
}

impl GtkTabsLocation {
    /// The text this value is written as.
    pub open spec fn spec_text(&self) -> Seq<char> {
        match self {
            GtkTabsLocation::Top => "top"@,
            GtkTabsLocation::Bottom => "bottom"@,
            GtkTabsLocation::Left => "left"@,
            GtkTabsLocation::Right => "right"@,
            GtkTabsLocation::Hidden => "hidden"@,
        }
    }

    /// The text this value is written as.
    pub fn to_string(&self) -> (r: String)
        ensures
            r@ == self.spec_text(),
    {
        match self {
            GtkTabsLocation::Top => owned("top"),
            GtkTabsLocation::Bottom => owned("bottom"),
            GtkTabsLocation::Left => owned("left"),
            GtkTabsLocation::Right => owned("right"),
            GtkTabsLocation::Hidden => owned("hidden"),
        }
    }
}

/// GTK-specific configuration options (ignored on non-GTK builds).
#[derive(Clone, Debug)]
pub struct GtkConfig {
    /// Run only a single Ghostty process; new windows open in the existing instance.
    pub single_instance: Option<bool>,
    pub tabs_location: Option<GtkTabsLocation>,
    /// Use wider tab labels.
    pub wide_tabs: Option<bool>,
    /// Apply Adwaita theming to the window chrome.
    pub adwaita: Option<bool>,
}

impl Default for GtkConfig {
    fn default() -> (r: Self)
        ensures
            r.single_instance is None,
            r.tabs_location is None,
            r.wide_tabs is None,
            r.adwaita is None,
    {
        GtkConfig { single_instance: None, tabs_location: None, wide_tabs: None, adwaita: None }
    }
}

impl GtkConfig {
    pub fn new() -> (r: Self)
        ensures
            r.single_instance is None,
            r.tabs_location is None,
            r.wide_tabs is None,
            r.adwaita is None,
    {
        Self::default()
    }

    pub fn single_instance(self, v: bool) -> (r: Self)
        ensures
            r == (GtkConfig { single_instance: Some(v), ..self }),
    {
        GtkConfig { single_instance: Some(v), ..self }
    }

    pub fn tabs_location(self, v: GtkTabsLocation) -> (r: Self)
        ensures
            r == (GtkConfig { tabs_location: Some(v), ..self }),
    {
        GtkConfig { tabs_location: Some(v), ..self }
    }

    pub fn wide_tabs(self, v: bool) -> (r: Self)
        ensures
            r == (GtkConfig { wide_tabs: Some(v), ..self }),
    {
        GtkConfig { wide_tabs: Some(v), ..self }
    }

    pub fn adwaita(self, v: bool) -> (r: Self)
        ensures
            r == (GtkConfig { adwaita: Some(v), ..self }),
    {
        GtkConfig { adwaita: Some(v), ..self }
    }

    /// The `key = value` lines of the set options, in order.
    pub open spec fn spec_lines(&self) -> Seq<Seq<char>> {
        kv_opt("gtk-single-instance"@, bool_val(self.single_instance))
            + kv_opt("gtk-tabs-location"@, (match self.tabs_location { Some(e) => Some(e.spec_text()), None => None }))
            + kv_opt("gtk-wide-tabs"@, bool_val(self.wide_tabs))
            + kv_opt("gtk-adwaita"@, bool_val(self.adwaita))
    }
}

impl GhosttyConfig for GtkConfig {
    open spec fn spec_render(&self, ctx: GhosttyRenderContext) -> Seq<char> {
        terminated(self.spec_lines())
    }

    fn render(&self, ctx: &GhosttyRenderContext) -> (r: String) {
        let mut lines: Vec<String> = Vec::new();
        push_kv_opt(&mut lines, "gtk-single-instance", bool_value(self.single_instance));
        push_kv_opt(&mut lines, "gtk-tabs-location", (match &self.tabs_location { Some(e) => Some(e.to_string()), None => None }));
        push_kv_opt(&mut lines, "gtk-wide-tabs", bool_value(self.wide_tabs));
        push_kv_opt(&mut lines, "gtk-adwaita", bool_value(self.adwaita));
        assert(views(lines@) =~= self.spec_lines());
        terminate_lines(&lines)
    }

    fn validate(&self) -> (r: Result<(), String>) {
        Ok(())
    }
}

/// macOS title-bar style.
#[derive(Clone, Copy, Debug)]
pub enum MacosTitlebarStyle {
    Native,
    Transparent,
    Tabs,
    Hidden,
}

impl MacosTitlebarStyle {
    /// The text this value is written as.
    pub open spec fn spec_text(&self) -> Seq<char> {
        match self {
            MacosTitlebarStyle::Native => "native"@,
            MacosTitlebarStyle::Transparent => "transparent"@,
            MacosTitlebarStyle::Tabs => "tabs"@,
            MacosTitlebarStyle::Hidden => "hidden"@,
        }
    }

    /// The text this value is written as.
    pub fn to_string(&self) -> (r: String)
        ensures
            r@ == self.spec_text(),
    {
        match self {
            MacosTitlebarStyle::Native => owned("native"),
            MacosTitlebarStyle::Transparent => owned("transparent"),
            MacosTitlebarStyle::Tabs => owned("tabs"),
            MacosTitlebarStyle::Hidden => owned("hidden"),
        }
    }
}

/// Which modifier the Option key acts as on macOS.
#[derive(Clone, Copy, Debug)]
pub enum MacosOptionAsAlt {
    /// Do not remap Option.
    False,
    /// Left Option → Alt.
    Left,
    /// Right Option → Alt.
    Right,
    /// Both Option keys → Alt.
    True,
}

impl MacosOptionAsAlt {
    /// The text this value is written as.
    pub open spec fn spec_text(&self) -> Seq<char> {
        match self {
            MacosOptionAsAlt::False => "false"@,
            MacosOptionAsAlt::Left => "left"@,
            MacosOptionAsAlt::Right => "right"@,
            MacosOptionAsAlt::True => "true"@,
        }
    }

    /// The text this value is written as.
    pub fn to_string(&self) -> (r: String)
        ensures
            r@ == self.spec_text(),
    {
        match self {
            MacosOptionAsAlt::False => owned("false"),
            MacosOptionAsAlt::Left => owned("left"),
            MacosOptionAsAlt::Right => owned("right"),
            MacosOptionAsAlt::True => owned("true"),
        }
    }
}

/// macOS-specific configuration options (ignored on other builds).
#[derive(Clone, Debug)]
pub struct MacosConfig {
    pub option_as_alt: Option<MacosOptionAsAlt>,
    pub window_shadow: Option<bool>,
    pub titlebar_style: Option<MacosTitlebarStyle>,
    /// Show the proxy icon in the title bar.
    pub titlebar_proxy_icon: Option<bool>,
    /// Display a visual indicator when Secure Input is active.
    pub secure_input_indication: Option<bool>,
    /// Use a non-native fullscreen mode (faster transition).
    pub non_native_fullscreen: Option<bool>,
    /// Auto-hide the menu bar in fullscreen.
    pub hide_mouse_while_typing: Option<bool>,
}

impl Default for MacosConfig {
    fn default() -> (r: Self)
        ensures
            r.option_as_alt is None,
            r.window_shadow is None,
            r.titlebar_style is None,
            r.titlebar_proxy_icon is None,
            r.secure_input_indication is None,
            r.non_native_fullscreen is None,
            r.hide_mouse_while_typing is None,
    {
        MacosConfig {
            option_as_alt: None,
            window_shadow: None,
            titlebar_style: None,
            titlebar_proxy_icon: None,
            secure_input_indication: None,
            non_native_fullscreen: None,
            hide_mouse_while_typing: None,
        }
    }
}

impl MacosConfig {
    pub fn new() -> (r: Self)
        ensures
            r.option_as_alt is None,
            r.window_shadow is None,
            r.titlebar_style is None,
            r.titlebar_proxy_icon is None,
            r.secure_input_indication is None,
            r.non_native_fullscreen is None,
            r.hide_mouse_while_typing is None,
    {
        Self::default()
    }

    pub fn option_as_alt(self, v: MacosOptionAsAlt) -> (r: Self)
        ensures
            r == (MacosConfig { option_as_alt: Some(v), ..self }),
    {
        MacosConfig { option_as_alt: Some(v), ..self }
    }

    pub fn window_shadow(self, v: bool) -> (r: Self)
        ensures
            r == (MacosConfig { window_shadow: Some(v), ..self }),
    {
        MacosConfig { window_shadow: Some(v), ..self }
    }

    pub fn titlebar_style(self, v: MacosTitlebarStyle) -> (r: Self)
        ensures
            r == (MacosConfig { titlebar_style: Some(v), ..self }),
    {
        MacosConfig { titlebar_style: Some(v), ..self }
    }

    pub fn titlebar_proxy_icon(self, v: bool) -> (r: Self)
        ensures
            r == (MacosConfig { titlebar_proxy_icon: Some(v), ..self }),
    {
        MacosConfig { titlebar_proxy_icon: Some(v), ..self }
    }

    pub fn secure_input_indication(self, v: bool) -> (r: Self)
        ensures
            r == (MacosConfig { secure_input_indication: Some(v), ..self }),
    {
        MacosConfig { secure_input_indication: Some(v), ..self }
    }

    pub fn non_native_fullscreen(self, v: bool) -> (r: Self)
        ensures
            r == (MacosConfig { non_native_fullscreen: Some(v), ..self }),
    {
        MacosConfig { non_native_fullscreen: Some(v), ..self }
    }

    pub fn hide_mouse_while_typing(self, v: bool) -> (r: Self)
        ensures
            r == (MacosConfig { hide_mouse_while_typing: Some(v), ..self }),
    {
        MacosConfig { hide_mouse_while_typing: Some(v), ..self }
    }

    /// The `key = value` lines of the set options, in order.
    pub open spec fn spec_lines(&self) -> Seq<Seq<char>> {
        kv_opt("macos-option-as-alt"@, (match self.option_as_alt { Some(e) => Some(e.spec_text()), None => None }))
            + kv_opt("macos-window-shadow"@, bool_val(self.window_shadow))
            + kv_opt("macos-titlebar-style"@, (match self.titlebar_style { Some(e) => Some(e.spec_text()), None => None }))
            + kv_opt("macos-titlebar-proxy-icon"@, bool_val(self.titlebar_proxy_icon))
            + kv_opt("macos-secure-input-indication"@, bool_val(self.secure_input_indication))
            + kv_opt("macos-non-native-fullscreen"@, bool_val(self.non_native_fullscreen))
            + kv_opt("macos-hide-mouse-while-typing"@, bool_val(self.hide_mouse_while_typing))
    }
}

impl GhosttyConfig for MacosConfig {
    open spec fn spec_render(&self, ctx: GhosttyRenderContext) -> Seq<char> {
        terminated(self.spec_lines())
    }

    fn render(&self, ctx: &GhosttyRenderContext) -> (r: String) {
        let mut lines: Vec<String> = Vec::new();
        push_kv_opt(&mut lines, "macos-option-as-alt", (match &self.option_as_alt { Some(e) => Some(e.to_string()), None => None }));
        push_kv_opt(&mut lines, "macos-window-shadow", bool_value(self.window_shadow));
        push_kv_opt(&mut lines, "macos-titlebar-style", (match &self.titlebar_style { Some(e) => Some(e.to_string()), None => None }));
        push_kv_opt(&mut lines, "macos-titlebar-proxy-icon", bool_value(self.titlebar_proxy_icon));
        push_kv_opt(&mut lines, "macos-secure-input-indication", bool_value(self.secure_input_indication));
        push_kv_opt(&mut lines, "macos-non-native-fullscreen", bool_value(self.non_native_fullscreen));
        push_kv_opt(&mut lines, "macos-hide-mouse-while-typing", bool_value(self.hide_mouse_while_typing));
        assert(views(lines@) =~= self.spec_lines());
        terminate_lines(&lines)
    }

    fn validate(&self) -> (r: Result<(), String>) {
        Ok(())
    }
}

} // verus!
