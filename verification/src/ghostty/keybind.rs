//! Key bindings (`keybind = trigger=action`).
use vstd::prelude::*;
use crate::ghostty::context::{GhosttyConfig, GhosttyRenderContext};
use crate::text::{cat2, cat4, cat5, concat, concat_strings, nat_str, owned, push_part, u64_str, views};

verus! {

/// Common Ghostty keybind actions; `Custom` holds any other action.
#[derive(Clone, Debug)]
pub enum KeybindAction {
    // Clipboard
    CopyToClipboard,
    PasteFromClipboard,
    CopyUrlToClipboard,

    // Window / surface management
    NewWindow,
    CloseWindow,
    NewTab,
    CloseTab,
    NextTab,
    PreviousTab,
    /// Jump to tab by 1-based index.
    GotoTab(u8),
    NewSplitRight,
    NewSplitLeft,
    NewSplitDown,
    NewSplitUp,
    CloseSurface,
    FocusSplitRight,
    FocusSplitLeft,
    FocusSplitDown,
    FocusSplitUp,
    ResizeSplitRight(u32),
    ResizeSplitLeft(u32),
    ResizeSplitDown(u32),
    ResizeSplitUp(u32),
    EqualizeSplits,

    // View
    ToggleFullscreen,
    ToggleZoom,
    ToggleTabOverview,

    // Font
    IncreaseFontSize(u32),
    DecreaseFontSize(u32),
    ResetFontSize,

    // Scroll
    ScrollUp,
    ScrollDown,
    ScrollPageUp,
    ScrollPageDown,
    ScrollToTop,
    ScrollToBottom,

    // Input
    /// Send a literal string to the PTY.
    WriteToTty(String),
    /// Send text preceded by ESC.
    Esc(String),

    /// Clear screen.
    ClearScreen,

    // Inspector
    InspectorToggle,

    /// Quit the application.
    Quit,

    /// Reload configuration.
    ReloadConfig,

    /// Any action not covered above.
    Custom(String),

    /// Explicitly unbind a key.
    Unbind,
}

impl KeybindAction {
    /// The action's text in a keybind entry.
    pub open spec fn spec_text(&self) -> Seq<char> {
        match self {
            KeybindAction::CopyToClipboard => "copy_to_clipboard"@,
            KeybindAction::PasteFromClipboard => "paste_from_clipboard"@,
            KeybindAction::CopyUrlToClipboard => "copy_url_to_clipboard"@,
            KeybindAction::NewWindow => "new_window"@,
            KeybindAction::CloseWindow => "close_window"@,
            KeybindAction::NewTab => "new_tab"@,
            KeybindAction::CloseTab => "close_tab"@,
            KeybindAction::NextTab => "next_tab"@,
            KeybindAction::PreviousTab => "previous_tab"@,
            KeybindAction::GotoTab(n) => "goto_tab:"@ + nat_str(*n as nat),
            KeybindAction::NewSplitRight => "new_split:right"@,
            KeybindAction::NewSplitLeft => "new_split:left"@,
            KeybindAction::NewSplitDown => "new_split:down"@,
            KeybindAction::NewSplitUp => "new_split:up"@,
            KeybindAction::CloseSurface => "close_surface"@,
            KeybindAction::FocusSplitRight => "goto_split:right"@,
            KeybindAction::FocusSplitLeft => "goto_split:left"@,
            KeybindAction::FocusSplitDown => "goto_split:down"@,
            KeybindAction::FocusSplitUp => "goto_split:up"@,
            KeybindAction::ResizeSplitRight(n) => "resize_split:right,"@ + nat_str(*n as nat),
            KeybindAction::ResizeSplitLeft(n) => "resize_split:left,"@ + nat_str(*n as nat),
            KeybindAction::ResizeSplitDown(n) => "resize_split:down,"@ + nat_str(*n as nat),
            KeybindAction::ResizeSplitUp(n) => "resize_split:up,"@ + nat_str(*n as nat),
            KeybindAction::EqualizeSplits => "equalize_splits"@,
            KeybindAction::ToggleFullscreen => "toggle_fullscreen"@,
            KeybindAction::ToggleZoom => "toggle_zoom"@,
            KeybindAction::ToggleTabOverview => "toggle_tab_overview"@,
            KeybindAction::IncreaseFontSize(n) => "increase_font_size:"@ + nat_str(*n as nat),
            KeybindAction::DecreaseFontSize(n) => "decrease_font_size:"@ + nat_str(*n as nat),
            KeybindAction::ResetFontSize => "reset_font_size"@,
            KeybindAction::ScrollUp => "scroll_up"@,
            KeybindAction::ScrollDown => "scroll_down"@,
            KeybindAction::ScrollPageUp => "scroll_page_up"@,
            KeybindAction::ScrollPageDown => "scroll_page_down"@,
            KeybindAction::ScrollToTop => "scroll_to_top"@,
            KeybindAction::ScrollToBottom => "scroll_to_bottom"@,
            KeybindAction::WriteToTty(s) => "write_to_pty:"@ + s@,
            KeybindAction::Esc(s) => "esc:"@ + s@,
            KeybindAction::ClearScreen => "clear_screen"@,
            KeybindAction::InspectorToggle => "inspector:toggle"@,
            KeybindAction::Quit => "quit"@,
            KeybindAction::ReloadConfig => "reload_config"@,
            KeybindAction::Custom(s) => s@,
            KeybindAction::Unbind => "unbind"@,
        }
    }

    /// The action's text in a keybind entry.
    pub fn to_string(&self) -> (r: String)
        ensures
            r@ == self.spec_text(),
    {
        match self {
            KeybindAction::CopyToClipboard => owned("copy_to_clipboard"),
            KeybindAction::PasteFromClipboard => owned("paste_from_clipboard"),
            KeybindAction::CopyUrlToClipboard => owned("copy_url_to_clipboard"),
            KeybindAction::NewWindow => owned("new_window"),
            KeybindAction::CloseWindow => owned("close_window"),
            KeybindAction::NewTab => owned("new_tab"),
            KeybindAction::CloseTab => owned("close_tab"),
            KeybindAction::NextTab => owned("next_tab"),
            KeybindAction::PreviousTab => owned("previous_tab"),
            KeybindAction::GotoTab(n) => {
                let d = u64_str(*n as u64);
                cat2("goto_tab:", d.as_str())
            },
            KeybindAction::NewSplitRight => owned("new_split:right"),
            KeybindAction::NewSplitLeft => owned("new_split:left"),
            KeybindAction::NewSplitDown => owned("new_split:down"),
            KeybindAction::NewSplitUp => owned("new_split:up"),
            KeybindAction::CloseSurface => owned("close_surface"),
            KeybindAction::FocusSplitRight => owned("goto_split:right"),
            KeybindAction::FocusSplitLeft => owned("goto_split:left"),
            KeybindAction::FocusSplitDown => owned("goto_split:down"),
            KeybindAction::FocusSplitUp => owned("goto_split:up"),
            KeybindAction::ResizeSplitRight(n) => {
                let d = u64_str(*n as u64);
                cat2("resize_split:right,", d.as_str())
            },
            KeybindAction::ResizeSplitLeft(n) => {
                let d = u64_str(*n as u64);
                cat2("resize_split:left,", d.as_str())
            },
            KeybindAction::ResizeSplitDown(n) => {
                let d = u64_str(*n as u64);
                cat2("resize_split:down,", d.as_str())
            },
            KeybindAction::ResizeSplitUp(n) => {
                let d = u64_str(*n as u64);
                cat2("resize_split:up,", d.as_str())
            },
            KeybindAction::EqualizeSplits => owned("equalize_splits"),
            KeybindAction::ToggleFullscreen => owned("toggle_fullscreen"),
            KeybindAction::ToggleZoom => owned("toggle_zoom"),
            KeybindAction::ToggleTabOverview => owned("toggle_tab_overview"),
            KeybindAction::IncreaseFontSize(n) => {
                let d = u64_str(*n as u64);
                cat2("increase_font_size:", d.as_str())
            },
            KeybindAction::DecreaseFontSize(n) => {
                let d = u64_str(*n as u64);
                cat2("decrease_font_size:", d.as_str())
            },
            KeybindAction::ResetFontSize => owned("reset_font_size"),
            KeybindAction::ScrollUp => owned("scroll_up"),
            KeybindAction::ScrollDown => owned("scroll_down"),
            KeybindAction::ScrollPageUp => owned("scroll_page_up"),
            KeybindAction::ScrollPageDown => owned("scroll_page_down"),
            KeybindAction::ScrollToTop => owned("scroll_to_top"),
            KeybindAction::ScrollToBottom => owned("scroll_to_bottom"),
            KeybindAction::WriteToTty(s) => cat2("write_to_pty:", s.as_str()),
            KeybindAction::Esc(s) => cat2("esc:", s.as_str()),
            KeybindAction::ClearScreen => owned("clear_screen"),
            KeybindAction::InspectorToggle => owned("inspector:toggle"),
            KeybindAction::Quit => owned("quit"),
            KeybindAction::ReloadConfig => owned("reload_config"),
            KeybindAction::Custom(s) => owned(s.as_str()),
            KeybindAction::Unbind => owned("unbind"),
        }
    }
}

/// A single `keybind = <trigger>=<action>` entry.
#[derive(Clone, Debug)]
pub struct Keybind {
    /// Key trigger, e.g. `"ctrl+c"` or `"super+shift+enter"`.
    pub trigger: String,
    pub action: KeybindAction,
    /// Make this a global (OS-level) shortcut.
    pub global: bool,
}

impl Keybind {
    pub fn new(trigger: &str, action: KeybindAction) -> (r: Self)
        ensures
            r.trigger@ == trigger@,
            r.action == action,
            !r.global,
    {
        Keybind { trigger: owned(trigger), action, global: false }
    }

    pub fn global(self) -> (r: Self)
        ensures
            r == (Keybind { global: true, ..self }),
    {
        Keybind { global: true, ..self }
    }

    /// The entry line of this binding, newline included.
    pub open spec fn spec_line(&self) -> Seq<char> {
        "keybind = "@ + (if self.global {
            "global:"@
        } else {
            Seq::empty()
        }) + self.trigger@ + "="@ + self.action.spec_text() + "\n"@
    }
}

impl GhosttyConfig for Keybind {
    open spec fn spec_render(&self, ctx: GhosttyRenderContext) -> Seq<char> {
        self.spec_line()
    }

    fn render(&self, ctx: &GhosttyRenderContext) -> (r: String) {
        let a = self.action.to_string();
        let line = if self.global {
            cat5("keybind = ", "global:", self.trigger.as_str(), "=", a.as_str())
        } else {
            cat4("keybind = ", self.trigger.as_str(), "=", a.as_str())
        };
        let r = cat2(line.as_str(), "\n");
        assert(r@ =~= self.spec_line());
        r
    }

    fn validate(&self) -> (r: Result<(), String>) {
        Ok(())
    }
}

/// A collection of keybind entries rendered together.
#[derive(Clone, Debug)]
pub struct KeybindGroup {
    pub binds: Vec<Keybind>,
}

impl Default for KeybindGroup {
    fn default() -> (r: Self)
        ensures
            r.binds@.len() == 0,
    {
        KeybindGroup { binds: Vec::new() }
    }
}

impl KeybindGroup {
    pub fn new() -> (r: Self)
        ensures
            r.binds@.len() == 0,
    {
        Self::default()
    }

    pub fn bind(self, trigger: &str, action: KeybindAction) -> (r: Self)
        ensures
            r.binds@.len() == self.binds@.len() + 1,
            r.binds@.drop_last() == self.binds@,
            r.binds@.last().trigger@ == trigger@,
            r.binds@.last().action == action,
            !r.binds@.last().global,
    {
        let mut s = self;
        s.binds.push(Keybind::new(trigger, action));
        assert(s.binds@.drop_last() =~= self.binds@);
        s
    }

    pub fn global_bind(self, trigger: &str, action: KeybindAction) -> (r: Self)
        ensures
            r.binds@.len() == self.binds@.len() + 1,
            r.binds@.drop_last() == self.binds@,
            r.binds@.last().trigger@ == trigger@,
            r.binds@.last().action == action,
            r.binds@.last().global,
    {
        let mut s = self;
        s.binds.push(Keybind::new(trigger, action).global());
        assert(s.binds@.drop_last() =~= self.binds@);
        s
    }

    /// The entry lines of the bindings, in order.
    pub open spec fn spec_lines(&self) -> Seq<Seq<char>> {
        Seq::new(self.binds@.len(), |i: int| self.binds@[i].spec_line())
    }
}

impl GhosttyConfig for KeybindGroup {
    open spec fn spec_render(&self, ctx: GhosttyRenderContext) -> Seq<char> {
        concat(self.spec_lines())
    }

    fn render(&self, ctx: &GhosttyRenderContext) -> (r: String) {
        let mut parts: Vec<String> = Vec::new();
        let mut i: usize = 0;
        while i < self.binds.len()
            invariant
                i <= self.binds@.len(),
                views(parts@) == self.spec_lines().take(i as int),
            decreases self.binds@.len() - i,
        {
            push_part(&mut parts, self.binds[i].render(ctx));
            assert(self.spec_lines().take(i + 1) =~= self.spec_lines().take(i as int).push(
                self.binds@[i as int].spec_line(),
            ));
            i = i + 1;
        }
        assert(self.spec_lines().take(self.binds@.len() as int) =~= self.spec_lines());
        concat_strings(&parts)
    }

    fn validate(&self) -> (r: Result<(), String>) {
        Ok(())
    }
}

} // verus!
