use toconfig::ghostty::color::{ColorConfig, HexColor, ThemeSpec};
use toconfig::ghostty::cursor::{CursorConfig, CursorStyle};
use toconfig::ghostty::font::{FontConfig, FontSyntheticStyle};
use toconfig::ghostty::keybind::{Keybind, KeybindAction, KeybindGroup};
use toconfig::ghostty::misc::{AutoUpdateChannel, BellFeature, MiscConfig};
use toconfig::ghostty::output::GhosttyOutput;
use toconfig::ghostty::platform::{GtkConfig, GtkTabsLocation, MacosConfig, MacosOptionAsAlt, MacosTitlebarStyle};
use toconfig::ghostty::section::{GhosttyBlankLine, GhosttyComment, RawGhostty};
use toconfig::ghostty::shell::{ShellConfig, ShellIntegration};
use toconfig::ghostty::terminal::{ClipboardAccess, TerminalConfig};
use toconfig::ghostty::mouse::MouseConfig;
use toconfig::ghostty::window::{Colorspace, PaddingColor, WindowConfig, WindowDecoration, WindowSaveState};
use toconfig::ghostty::{GhosttyConfig, GhosttyConfigTree};

#[test]
fn keybind_action_texts() {
    assert_eq!(KeybindAction::CopyToClipboard.to_string(), "copy_to_clipboard");
    assert_eq!(KeybindAction::GotoTab(3).to_string(), "goto_tab:3");
    assert_eq!(KeybindAction::ResizeSplitLeft(10).to_string(), "resize_split:left,10");
    assert_eq!(KeybindAction::WriteToTty("ls\n".into()).to_string(), "write_to_pty:ls\n");
    assert_eq!(KeybindAction::Esc("d".into()).to_string(), "esc:d");
    assert_eq!(KeybindAction::Custom("toggle_quick_terminal".into()).to_string(), "toggle_quick_terminal");
    assert_eq!(KeybindAction::InspectorToggle.to_string(), "inspector:toggle");
    assert_eq!(KeybindAction::Unbind.to_string(), "unbind");
}

#[test]
fn keybind_lines() {
    let k = Keybind::new("ctrl+shift+t", KeybindAction::NewTab);
    assert_eq!(k.generate(), "keybind = ctrl+shift+t=new_tab\n");
    let g = Keybind::new("super+grave", KeybindAction::Custom("toggle_quick_terminal".into())).global();
    assert_eq!(g.generate(), "keybind = global:super+grave=toggle_quick_terminal\n");
}

#[test]
fn keybind_group_concatenates_lines() {
    let grp = KeybindGroup::new()
        .bind("ctrl+c", KeybindAction::CopyToClipboard)
        .global_bind("super+q", KeybindAction::Quit);
    assert_eq!(
        grp.generate(),
        "keybind = ctrl+c=copy_to_clipboard\nkeybind = global:super+q=quit\n"
    );
    assert_eq!(KeybindGroup::new().generate(), "");
}

#[test]
fn misc_config_lines() {
    let m = MiscConfig::new()
        .quit_after_last_window_closed(true)
        .auto_update(false)
        .auto_update_channel(AutoUpdateChannel::Tip)
        .add_bell_feature(BellFeature::Audio)
        .add_bell_feature(BellFeature::Custom("title".into()))
        .include_file("~/.config/ghostty/extra");
    assert_eq!(
        m.generate(),
        "quit-after-last-window-closed = true\nauto-update = off\nauto-update-channel = tip\nbell-features = audio\nbell-features = title\n@include = ~/.config/ghostty/extra\n"
    );
    assert_eq!(MiscConfig::new().auto_update(true).generate(), "auto-update = check\n");
}

#[test]
fn platform_configs() {
    let g = GtkConfig::new().single_instance(true).tabs_location(GtkTabsLocation::Bottom).adwaita(false);
    assert_eq!(
        g.generate(),
        "gtk-single-instance = true\ngtk-tabs-location = bottom\ngtk-adwaita = false\n"
    );
    let m = MacosConfig::new()
        .option_as_alt(MacosOptionAsAlt::Left)
        .titlebar_style(MacosTitlebarStyle::Tabs)
        .window_shadow(true);
    assert_eq!(
        m.generate(),
        "macos-option-as-alt = left\nmacos-window-shadow = true\nmacos-titlebar-style = tabs\n"
    );
}

#[test]
fn shell_config_lines() {
    let s = ShellConfig::new()
        .command("/usr/bin/fish")
        .login_shell(false)
        .shell_integration(ShellIntegration::NoIntegration)
        .shell_integration_features("no-cursor");
    assert_eq!(
        s.generate(),
        "command = /usr/bin/fish\nlogin-shell = false\nshell-integration = none\nshell-integration-features = no-cursor\n"
    );
    assert_eq!(ShellConfig::new().generate(), "");
}

#[test]
fn terminal_config_lines() {
    let t = TerminalConfig::new()
        .term("xterm-256color")
        .scrollback_limit(-1)
        .clipboard_read(ClipboardAccess::Ask)
        .links(true);
    assert_eq!(
        t.generate(),
        "term = xterm-256color\nscrollback-limit = -1\nclipboard-read = ask\nlink = true\n"
    );
}

#[test]
fn enum_texts() {
    assert_eq!(CursorStyle::BlockHollow.to_string(), "block_hollow");
    assert_eq!(FontSyntheticStyle::All.to_string(), "true");
    assert_eq!(FontSyntheticStyle::NoBoldItalic.to_string(), "no-bold-italic");
    assert_eq!(WindowDecoration::NoDecoration.to_string(), "none");
    assert_eq!(WindowSaveState::Always.to_string(), "always");
    assert_eq!(PaddingColor::ExtendAlways.to_string(), "extend-always");
    assert_eq!(Colorspace::DisplayP3.to_string(), "display-p3");
}

#[test]
fn hex_color_validation() {
    let c = HexColor::new("#1e1e2e").unwrap();
    assert_eq!(c.to_string(), "#1e1e2e");
    assert!(HexColor::new("#ABCDEF").is_ok());
    assert_eq!(
        HexColor::new("1e1e2e").err(),
        Some("invalid hex color '1e1e2e': expected #rrggbb".to_string())
    );
    assert!(HexColor::new("#12345").is_err());
    assert!(HexColor::new("#12345g").is_err());
    assert!(HexColor::new("#1234567").is_err());
}

#[test]
fn theme_spec_texts() {
    assert_eq!(ThemeSpec::single("Catppuccin Mocha").to_string(), "Catppuccin Mocha");
    assert_eq!(
        ThemeSpec::dark_light("tokyonight", "gruvbox-light").to_string(),
        "dark:tokyonight,light:gruvbox-light"
    );
}

#[test]
fn sections_comment_blank_raw() {
    assert_eq!(GhosttyComment::new("a\nb").generate(), "# a\n# b\n");
    assert_eq!(GhosttyBlankLine.generate(), "\n");
    assert_eq!(RawGhostty::new("x = 1").generate(), "x = 1\n");
    assert_eq!(RawGhostty::new("x = 1\n").generate(), "x = 1\n");
}

#[test]
fn tree_renders_header_and_newline_terminated_nodes() {
    let mut tree = GhosttyConfigTree::new().with_header("generated");
    tree.push(Box::new(RawGhostty::new("font-size = 13")));
    tree.push(Box::new(ShellConfig::new()));
    tree.push(Box::new(Keybind::new("ctrl+a", KeybindAction::Custom("select_all".into()))));
    let out = tree.generate();
    assert_eq!(out, "# generated\n\nfont-size = 13\nkeybind = ctrl+a=select_all\n");
    assert!(out.ends_with('\n'));
}

#[test]
fn tree_without_header_or_nodes_is_empty() {
    assert_eq!(GhosttyConfigTree::new().generate(), "");
    assert_eq!(GhosttyConfigTree::new().validate(), Ok(()));
}

#[test]
fn output_preview() {
    let o = GhosttyOutput::at_path("/tmp/ghostty");
    assert_eq!(o.target, "/tmp/ghostty");
    assert_eq!(o.preview(&RawGhostty::new("a = b")), "a = b\n");
}

#[test]
fn window_config_lines_in_order() {
    let w = WindowConfig::new()
        .width(120)
        .height(40)
        .title("Term")
        .decoration(WindowDecoration::NoDecoration)
        .padding_x(8)
        .padding_y(4)
        .padding_balance(true)
        .padding_color(PaddingColor::Extend)
        .colorspace(Colorspace::DisplayP3)
        .save_state(WindowSaveState::Always)
        .new_tab_position("end")
        .inherit_working_directory(true)
        .inherit_font_size(false)
        .initial_position(-10, 20)
        .opacity_text(&0.9f64.to_string())
        .background_blur(12);
    assert_eq!(
        w.generate(),
        "window-width = 120\nwindow-height = 40\ntitle = Term\nwindow-decoration = none\n\
         window-padding-x = 8\nwindow-padding-y = 4\nwindow-padding-balance = true\n\
         window-padding-color = extend\nwindow-colorspace = display-p3\nwindow-save-state = always\n\
         window-new-tab-position = end\nwindow-inherit-working-directory = true\n\
         window-inherit-font-size = false\nwindow-initial-position = -10,20\n\
         background-opacity = 0.9\nbackground-blur-radius = 12\n"
    );
    assert_eq!(WindowConfig::new().generate(), "");
    assert_eq!(WindowConfig::new().opacity_text("1").validate(), Ok(()));
}

#[test]
fn font_config_lines_in_order() {
    let f = FontConfig::new()
        .family("JetBrains Mono")
        .size_text(&13.5f64.to_string())
        .style_bold("Heavy")
        .add_feature("calt")
        .add_feature("-liga")
        .add_variation_text("wght", &450f64.to_string())
        .thicken(true)
        .synthetic_style(FontSyntheticStyle::NoBold);
    assert_eq!(
        f.generate(),
        "font-family = JetBrains Mono\nfont-size = 13.5\nfont-style-bold = Heavy\n\
         font-feature = calt\nfont-feature = -liga\nfont-variation = wght=450\n\
         font-thicken = true\nfont-synthetic-style = no-bold\n"
    );
    assert_eq!(FontConfig::new().generate(), "");
}

#[test]
fn cursor_config_lines_in_order() {
    let c = CursorConfig::new()
        .style(CursorStyle::Bar)
        .blink(false)
        .color(HexColor::new("#ff0000").unwrap())
        .text_color(HexColor::new("#000000").unwrap())
        .click_to_move(true)
        .opacity_text("0.8");
    assert_eq!(
        c.generate(),
        "cursor-style = bar\ncursor-style-blink = false\ncursor-color = #ff0000\n\
         cursor-text = #000000\ncursor-click-to-move = true\ncursor-opacity = 0.8\n"
    );
}

#[test]
fn color_config_lines_and_palette() {
    let c = ColorConfig::new()
        .theme(ThemeSpec::dark_light("tokyonight", "gruvbox-light"))
        .background(HexColor::new("#1e1e2e").unwrap())
        .selection_foreground(HexColor::new("#cdd6f4").unwrap())
        .minimum_contrast_text("1.5")
        .palette_entry(0, HexColor::new("#000000").unwrap())
        .palette_entry(15, HexColor::new("#ffffff").unwrap());
    assert_eq!(
        c.generate(),
        "theme = dark:tokyonight,light:gruvbox-light\nbackground = #1e1e2e\n\
         selection-foreground = #cdd6f4\nminimum-contrast = 1.5\n\
         palette = 0=#000000\npalette = 15=#ffffff\n"
    );
}

#[test]
fn mouse_config_lines_in_order() {
    let m = MouseConfig::new().hide_while_typing(true).scroll_multiplier_text("1.5").focus_follows_mouse(false);
    assert_eq!(
        m.generate(),
        "mouse-hide-while-typing = true\nmouse-scroll-multiplier = 1.5\nfocus-follows-mouse = false\n"
    );
}

#[test]
fn window_opacity_range_is_checked() {
    let w = |v: f64| WindowConfig::new().opacity_text(&v.to_string());
    assert_eq!(w(0.9).validate(), Ok(()));
    assert_eq!(w(0.0).validate(), Ok(()));
    assert_eq!(w(1.0).validate(), Ok(()));
    assert_eq!(w(-0.0).validate(), Ok(()));
    assert_eq!(w(1.5).validate(), Err("background-opacity must be 0.0–1.0, got 1.5".to_string()));
    assert_eq!(w(-0.1).validate(), Err("background-opacity must be 0.0–1.0, got -0.1".to_string()));
    assert_eq!(w(f64::NAN).validate(), Err("background-opacity must be 0.0–1.0, got NaN".to_string()));
    assert_eq!(w(f64::INFINITY).validate(), Err("background-opacity must be 0.0–1.0, got inf".to_string()));
    assert_eq!(WindowConfig::new().opacity_text("1.000").validate(), Ok(()));
    assert_eq!(
        WindowConfig::new().opacity_text("1.01").validate(),
        Err("background-opacity must be 0.0–1.0, got 1.01".to_string())
    );
    assert_eq!(WindowConfig::new().validate(), Ok(()));
}

#[test]
fn cursor_opacity_range_is_checked() {
    let c = |v: f64| CursorConfig::new().opacity_text(&v.to_string());
    assert_eq!(c(0.5).validate(), Ok(()));
    assert_eq!(c(2.0).validate(), Err("cursor-opacity must be 0.0–1.0, got 2".to_string()));
}

#[test]
fn font_size_must_be_positive() {
    let f = |v: f64| FontConfig::new().size_text(&v.to_string());
    assert_eq!(f(13.5).validate(), Ok(()));
    assert_eq!(f(0.25).validate(), Ok(()));
    assert_eq!(f(f64::NAN).validate(), Ok(()));
    assert_eq!(f(f64::INFINITY).validate(), Ok(()));
    assert_eq!(f(0.0).validate(), Err("font-size must be > 0, got 0".to_string()));
    assert_eq!(f(-0.0).validate(), Err("font-size must be > 0, got -0".to_string()));
    assert_eq!(f(-2.5).validate(), Err("font-size must be > 0, got -2.5".to_string()));
    assert_eq!(f(f64::NEG_INFINITY).validate(), Err("font-size must be > 0, got -inf".to_string()));
}

#[test]
fn minimum_contrast_range_is_checked() {
    let c = |v: f64| ColorConfig::new().minimum_contrast_text(&v.to_string());
    assert_eq!(c(1.0).validate(), Ok(()));
    assert_eq!(c(21.0).validate(), Ok(()));
    assert_eq!(c(3.5).validate(), Ok(()));
    assert_eq!(c(0.9).validate(), Err("minimum-contrast must be 1.0–21.0, got 0.9".to_string()));
    assert_eq!(c(21.5).validate(), Err("minimum-contrast must be 1.0–21.0, got 21.5".to_string()));
    assert_eq!(c(150.0).validate(), Err("minimum-contrast must be 1.0–21.0, got 150".to_string()));
}
