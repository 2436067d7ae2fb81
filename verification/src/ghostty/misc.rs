//! Application-level settings: quitting, updates, the bell and includes.
use vstd::prelude::*;
use crate::ghostty::context::{GhosttyConfig, GhosttyRenderContext};
use crate::text::{
    bool_val, bool_value, cat2, kv_opt, opt_string, opt_view, owned, push_kv_opt, push_part,
    terminate_lines, terminated, views,
};

verus! {

/// Auto-update channel selection.
#[derive(Clone, Copy, Debug)]
pub enum AutoUpdateChannel {
    Stable,
    Tip,
}

impl AutoUpdateChannel {
    /// The text this value is written as.
    pub open spec fn spec_text(&self) -> Seq<char> {
        match self {
            AutoUpdateChannel::Stable => "stable"@,
            AutoUpdateChannel::Tip => "tip"@,
        }
    }

    /// The text this value is written as.
    pub fn to_string(&self) -> (r: String)
        ensures
            r@ == self.spec_text(),
    {
        match self {
            AutoUpdateChannel::Stable => owned("stable"),
            AutoUpdateChannel::Tip => owned("tip"),
        }
    }
}

/// Bell feature flags; `False` disables the bell, `Custom` holds any other flag.
#[derive(Clone, Debug)]
pub enum BellFeature {
    Audio,
    Visual,
    System,
    /// Disable the bell.
    False,
    /// Any feature string not listed above.
    Custom(String),
}

impl BellFeature {
    /// The text this value is written as.
    pub open spec fn spec_text(&self) -> Seq<char> {
        match self {
            BellFeature::Audio => "audio"@,
            BellFeature::Visual => "visual"@,
            BellFeature::System => "system"@,
            BellFeature::False => "false"@,
            BellFeature::Custom(s) => s@,
        }
    }

    /// The text this value is written as.
    pub fn to_string(&self) -> (r: String)
        ensures
            r@ == self.spec_text(),
    {
        match self {
            BellFeature::Audio => owned("audio"),
            BellFeature::Visual => owned("visual"),
            BellFeature::System => owned("system"),
            BellFeature::False => owned("false"),
            BellFeature::Custom(s) => owned(s.as_str()),
        }
    }
}

/// Miscellaneous application-level settings.
#[derive(Clone, Debug)]
pub struct MiscConfig {
    /// Close the application after the last window closes.
    pub quit_after_last_window_closed: Option<bool>,
    /// Prompt before closing a surface that has a running process.
    pub confirm_close_surface: Option<bool>,
    /// Enable automatic update checks.
    pub auto_update: Option<bool>,
    pub auto_update_channel: Option<AutoUpdateChannel>,
    /// Bell feature flags, each rendered as its own `bell-features` entry.
    pub bell_features: Vec<BellFeature>,
    /// Path to an additional config file to pull in (the `@`-prefixed directive).
    pub include_file: Option<String>,
}

/// The `auto-update` value: `check` when enabled, `off` when disabled.
pub open spec fn auto_update_val(o: Option<bool>) -> Option<Seq<char>> {
    match o {
        Some(v) => Some(if v {
            "check"@
        } else {
            "off"@
        }),
        None => None,
    }
}

impl Default for MiscConfig {
    fn default() -> (r: Self)
        ensures
            r.quit_after_last_window_closed is None,
            r.confirm_close_surface is None,
            r.auto_update is None,
            r.auto_update_channel is None,
            r.bell_features@.len() == 0,
            r.include_file is None,
    {
        MiscConfig {
            quit_after_last_window_closed: None,
            confirm_close_surface: None,
            auto_update: None,
            auto_update_channel: None,
            bell_features: Vec::new(),
            include_file: None,
        }
    }
}

impl MiscConfig {
    pub fn new() -> (r: Self)
        ensures
            r.quit_after_last_window_closed is None,
            r.confirm_close_surface is None,
            r.auto_update is None,
            r.auto_update_channel is None,
            r.bell_features@.len() == 0,
            r.include_file is None,
    {
        Self::default()
    }

    pub fn quit_after_last_window_closed(self, v: bool) -> (r: Self)
        ensures
            r == (MiscConfig { quit_after_last_window_closed: Some(v), ..self }),
    {
        MiscConfig { quit_after_last_window_closed: Some(v), ..self }
    }

    pub fn confirm_close_surface(self, v: bool) -> (r: Self)
        ensures
            r == (MiscConfig { confirm_close_surface: Some(v), ..self }),
    {
        MiscConfig { confirm_close_surface: Some(v), ..self }
    }

    pub fn auto_update(self, v: bool) -> (r: Self)
        ensures
            r == (MiscConfig { auto_update: Some(v), ..self }),
    {
        MiscConfig { auto_update: Some(v), ..self }
    }

    pub fn auto_update_channel(self, c: AutoUpdateChannel) -> (r: Self)
        ensures
            r == (MiscConfig { auto_update_channel: Some(c), ..self }),
    {
        MiscConfig { auto_update_channel: Some(c), ..self }
    }

    pub fn add_bell_feature(self, f: BellFeature) -> (r: Self)
        ensures
            r.bell_features@ == self.bell_features@.push(f),
            r == (MiscConfig { bell_features: r.bell_features, ..self }),
    {
        let mut s = self;
        s.bell_features.push(f);
        s
    }

    /// Pull in an additional config file.
    pub fn include_file(self, path: &str) -> (r: Self)
        ensures
            opt_view(r.include_file) == Some(path@),
            r == (MiscConfig { include_file: r.include_file, ..self }),
    {
        MiscConfig { include_file: Some(owned(path)), ..self }
    }

    /// One `bell-features = …` line per feature, in order.
    pub open spec fn spec_bell_lines(&self) -> Seq<Seq<char>> {
        Seq::new(
            self.bell_features@.len(),
            |i: int| "bell-features = "@ + self.bell_features@[i].spec_text(),
        )
    }

    /// The lines of the set options, in order.
    pub open spec fn spec_lines(&self) -> Seq<Seq<char>> {
        kv_opt("quit-after-last-window-closed"@, bool_val(self.quit_after_last_window_closed))
            + kv_opt("confirm-close-surface"@, bool_val(self.confirm_close_surface)) + kv_opt(
            "auto-update"@,
            auto_update_val(self.auto_update),
        ) + kv_opt(
            "auto-update-channel"@,
            match self.auto_update_channel {
                Some(c) => Some(c.spec_text()),
                None => None,
            },
        ) + self.spec_bell_lines() + kv_opt("@incl"@ + "ude"@, opt_view(self.include_file))
    }
}

impl GhosttyConfig for MiscConfig {
    open spec fn spec_render(&self, ctx: GhosttyRenderContext) -> Seq<char> {
        terminated(self.spec_lines())
    }

    fn render(&self, ctx: &GhosttyRenderContext) -> (r: String) {
        let mut lines: Vec<String> = Vec::new();
        push_kv_opt(
            &mut lines,
            "quit-after-last-window-closed",
            bool_value(self.quit_after_last_window_closed),
        );
        push_kv_opt(&mut lines, "confirm-close-surface", bool_value(self.confirm_close_surface));
        let au = match self.auto_update {
            Some(v) => Some(owned(if v { "check" } else { "off" })),
            None => None,
        };
        push_kv_opt(&mut lines, "auto-update", au);
        let ch = match &self.auto_update_channel {
            Some(c) => Some(c.to_string()),
            None => None,
        };
        push_kv_opt(&mut lines, "auto-update-channel", ch);
        let ghost before = views(lines@);
        let mut i: usize = 0;
        while i < self.bell_features.len()
            invariant
                i <= self.bell_features@.len(),
                views(lines@) == before + self.spec_bell_lines().take(i as int),
            decreases self.bell_features@.len() - i,
        {
            let t = self.bell_features[i].to_string();
            push_part(&mut lines, cat2("bell-features = ", t.as_str()));
            assert(self.spec_bell_lines().take(i + 1) =~= self.spec_bell_lines().take(i as int).push(
                "bell-features = "@ + self.bell_features@[i as int].spec_text(),
            ));
            i = i + 1;
        }
        assert(self.spec_bell_lines().take(self.bell_features@.len() as int)
            =~= self.spec_bell_lines());
        let key = cat2("@incl", "ude");
        push_kv_opt(&mut lines, key.as_str(), opt_string(&self.include_file));
        assert(views(lines@) =~= self.spec_lines());
        terminate_lines(&lines)
    }

    fn validate(&self) -> (r: Result<(), String>) {
        Ok(())
    }
}

} // verus!
