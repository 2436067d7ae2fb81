use toconfig::hyprland::bind::{Bind, Dispatcher};
use toconfig::hyprland::environment::EnvVar;
use toconfig::hyprland::exec::{Exec, ExecOnce, PluginLoad, Source};
use toconfig::hyprland::animation::{Animation, AnimationsSection, Bezier};
use toconfig::hyprland::layout::{DwindleLayout, MasterLayout, MonocleLayout, ScrollingLayout};
use toconfig::hyprland::monitor::MonitorConfig;
use toconfig::hyprland::output::HyprlandOutput;
use toconfig::hyprland::permission::{Permission, PermissionAction, PermissionType};
use toconfig::hyprland::section::{RawHyprland, Section};
use toconfig::hyprland::window_rule::WindowRule;
use toconfig::hyprland::workspace::WorkspaceRule;
use toconfig::hyprland::xwayland::XWaylandSection;
use toconfig::hyprland::{HyprlandConfig, HyprlandConfigTree, HyprlandRenderContext, Variable};

#[test]
fn exec_once_renders_line() {
    assert_eq!(ExecOnce::new("waybar").generate(), "exec-once = waybar");
}

#[test]
fn exec_once_hyprctl_dispatch() {
    let e = ExecOnce::hyprctl_dispatch("workspace 1");
    assert_eq!(e.generate(), "exec-once = hyprctl dispatch workspace 1");
}

#[test]
fn exec_plugin_and_source_lines() {
    assert_eq!(Exec::new("swww img ~/wallpaper.png").generate(), "exec = swww img ~/wallpaper.png");
    let p = PluginLoad::new("/usr/lib/hyprland/hyprscroller.so");
    assert_eq!(p.generate(), "plugin = /usr/lib/hyprland/hyprscroller.so");
    assert_eq!(
        Source::new("~/.config/hypr/keybinds.conf").generate(),
        "source = ~/.config/hypr/keybinds.conf"
    );
}

#[test]
fn plugin_and_source_reject_empty_paths() {
    assert_eq!(PluginLoad::new("").validate(), Err("PluginLoad path cannot be empty".to_string()));
    assert_eq!(Source::new("").validate(), Err("Source path cannot be empty".to_string()));
    assert_eq!(Source::new("a.conf").validate(), Ok(()));
}

#[test]
fn bind_doc_examples() {
    let b = Bind::new("SUPER", "Return", Dispatcher::Exec("$terminal".into()));
    assert_eq!(b.generate(), "bind = SUPER, Return, exec, $terminal");
    let k = Bind::new("SUPER", "Q", Dispatcher::KillActive);
    assert_eq!(k.generate(), "bind = SUPER, Q, killactive");
    let m = Bind::new("SUPER", "mouse:272", Dispatcher::Custom("movewindow".into(), None)).mouse();
    assert_eq!(m.generate(), "bindm = SUPER, mouse:272, movewindow");
}

#[test]
fn bind_flags_in_order() {
    let b = Bind::new("SUPER", "L", Dispatcher::Exec("hyprlock".into()))
        .non_consuming()
        .repeat()
        .locked()
        .release();
    assert_eq!(b.generate(), "bindlren = SUPER, L, exec, hyprlock");
}

#[test]
fn dispatcher_texts() {
    assert_eq!(Dispatcher::FullScreen(1).to_dispatch_str(), "fullscreen, 1");
    assert_eq!(Dispatcher::ToggleSpecialWorkspace(None).to_dispatch_str(), "togglespecialworkspace");
    assert_eq!(
        Dispatcher::ToggleSpecialWorkspace(Some("magic".into())).to_dispatch_str(),
        "togglespecialworkspace, magic"
    );
    assert_eq!(Dispatcher::CyclePrev.to_dispatch_str(), "cyclenext, prev");
    assert_eq!(
        Dispatcher::Custom("layoutmsg".into(), Some("orientationnext".into())).to_dispatch_str(),
        "layoutmsg, orientationnext"
    );
}

#[test]
fn bind_rejects_empty_key() {
    let b = Bind::new("SUPER", "", Dispatcher::KillActive);
    assert_eq!(b.validate(), Err("Bind key cannot be empty".to_string()));
}

#[test]
fn env_var_doc_examples() {
    let e = EnvVar::preferred_gpu("/dev/dri/card1:/dev/dri/card0");
    assert_eq!(e.generate(), "env = AQ_DRM_DEVICES,/dev/dri/card1:/dev/dri/card0");
    let e = EnvVar::new("XCURSOR_SIZE", "24");
    assert_eq!(e.generate(), "env = XCURSOR_SIZE,24");
    assert_eq!(EnvVar::xcursor_size(32).generate(), "env = XCURSOR_SIZE,32");
}

#[test]
fn env_var_validation_errors() {
    assert_eq!(EnvVar::new("", "x").validate(), Err("EnvVar key cannot be empty".to_string()));
    assert_eq!(
        EnvVar::new("A,B", "x").validate(),
        Err("EnvVar key 'A,B' must not contain commas".to_string())
    );
    assert_eq!(EnvVar::qt_wayland().validate(), Ok(()));
}

#[test]
fn variable_doc_example_and_errors() {
    assert_eq!(Variable::new("terminal", "kitty").generate(), "$terminal = kitty");
    assert_eq!(Variable::new("", "x").validate(), Err("Variable name cannot be empty".to_string()));
    assert_eq!(
        Variable::new("my var", "x").validate(),
        Err("Variable name 'my var' must not contain spaces".to_string())
    );
}

#[test]
fn window_rule_doc_examples() {
    let r = WindowRule::new("float", "class:^(pavucontrol)$");
    assert_eq!(r.generate(), "windowrulev2 = float, class:^(pavucontrol)$");
    let r2 = WindowRule::new("float", "class:^(kitty)$").and("title:^(float)$");
    assert_eq!(r2.generate(), "windowrulev2 = float, class:^(kitty)$, title:^(float)$");
    assert_eq!(
        WindowRule::new("", "x").validate(),
        Err("WindowRule rule cannot be empty".to_string())
    );
}

#[test]
fn workspace_rule_doc_example() {
    let w = WorkspaceRule::new("1").monitor("eDP-1").default();
    assert_eq!(w.generate(), "workspace = 1, monitor:eDP-1, default:true");
    assert_eq!(WorkspaceRule::new("2").generate(), "workspace = 2");
    assert_eq!(WorkspaceRule::new("3").gaps_in(5).generate(), "workspace = 3, gapsin:5");
    assert_eq!(
        WorkspaceRule::new("").validate(),
        Err("WorkspaceRule id cannot be empty".to_string())
    );
}

#[test]
fn permission_doc_example() {
    let p = Permission::allow_screencopy("/usr/bin/obs");
    assert_eq!(p.generate(), "permission = /usr/bin/obs, screencopy, allow");
    let deny = Permission::deny_screencopy("/usr/bin/.*");
    assert!(deny.generate().contains("deny"));
    let c = Permission::new("x", PermissionType::Custom("keyboard".into()), PermissionAction::Ask);
    assert_eq!(c.generate(), "permission = x, keyboard, ask");
    assert_eq!(
        Permission::new("", PermissionType::Camera, PermissionAction::Ask).validate(),
        Err("Permission pattern cannot be empty".to_string())
    );
}

#[test]
fn section_doc_example() {
    let sec = Section::new("general").pair("gaps_in", "5").pair("gaps_out", "20").pair("border_size", "2");
    let out = sec.generate();
    assert!(out.contains("general {"));
    assert!(out.contains("gaps_in = 5"));
    assert_eq!(out, "general {\n    gaps_in = 5\n    gaps_out = 20\n    border_size = 2\n}");
}

#[test]
fn nested_section_is_indented_one_level_deeper() {
    let sec = Section::new("decoration")
        .comment("blur settings")
        .nested(Section::new("blur").pair("enabled", "true"))
        .blank();
    assert_eq!(
        sec.generate(),
        "decoration {\n    # blur settings\n    blur {\n        enabled = true\n    }\n\n}"
    );
}

#[test]
fn raw_text_is_indented_line_by_line() {
    let raw = RawHyprland::new("misc {\n    disable_hyprland_logo = true\n}");
    assert!(raw.generate().contains("disable_hyprland_logo"));
    let ctx = HyprlandRenderContext { indent_level: 1, indent_width: 2 };
    assert_eq!(RawHyprland::new("a\n\nb").render(&ctx), "  a\n\n  b");
}

#[test]
fn xwayland_doc_example() {
    let sec = XWaylandSection::new().force_zero_scaling(true);
    let out = sec.generate();
    assert!(out.contains("xwayland {"));
    assert!(out.contains("force_zero_scaling = true"));
    assert_eq!(out, "xwayland {\n    force_zero_scaling = true\n}");
}

#[test]
fn scrolling_layout_doc_example() {
    let s = ScrollingLayout::new().column_default_width("onehalf").focus_wrap(true);
    let out = s.generate();
    assert!(out.contains("plugin {"));
    assert!(out.contains("scroller {"));
    assert_eq!(
        out,
        "plugin {\n    scroller {\n        column_default_width = onehalf\n        focus_wrap = true\n    }\n}"
    );
}

#[test]
fn config_tree_header_and_nodes() {
    let mut tree = HyprlandConfigTree::new().with_comment("line one\nline two");
    tree.add(Box::new(Variable::new("terminal", "kitty")));
    tree.add(Box::new(Section::new("empty")));
    assert_eq!(
        tree.generate(),
        "# line one\n# line two\n$terminal = kitty\nempty {\n}"
    );
}

#[test]
fn config_tree_collects_all_errors() {
    let tree = HyprlandConfigTree::new()
        .push(Box::new(Variable::new("", "x")))
        .push(Box::new(ExecOnce::new("waybar")))
        .push(Box::new(Source::new("")));
    assert_eq!(
        tree.validate_all(),
        Err(vec!["Variable name cannot be empty".to_string(), "Source path cannot be empty".to_string()])
    );
    assert_eq!(HyprlandConfigTree::new().validate_all(), Ok(()));
}

#[test]
fn context_deeper_adds_width() {
    let ctx = HyprlandRenderContext::default();
    assert_eq!(ctx.indent(), "");
    let d = ctx.deeper();
    assert_eq!(d.indent(), "    ");
    assert_eq!(d.deeper().indent(), "        ");
}

#[test]
fn output_preview_renders_default_context() {
    let out = HyprlandOutput::at_path("/tmp/hyprland.conf");
    assert_eq!(out.target, "/tmp/hyprland.conf");
    assert_eq!(out.preview(&Variable::new("a", "b")), "$a = b");
}

#[test]
fn bezier_line_from_decimal_texts() {
    let b = Bezier::new(
        "myBezier",
        &0.05f32.to_string(),
        &0.9f32.to_string(),
        &0.1f32.to_string(),
        &1.05f32.to_string(),
    );
    assert_eq!(b.generate(), "bezier = myBezier, 0.05, 0.9, 0.1, 1.05");
    assert_eq!(Bezier::ease_out_back("myBezier").generate(), "bezier = myBezier, 0.05, 0.9, 0.1, 1.05");
    assert_eq!(Bezier::ease_in_out("e").generate(), "bezier = e, 0.42, 0, 0.58, 1");
    assert_eq!(Bezier::linear("l").generate(), "bezier = l, 0, 0, 1, 1");
    assert_eq!(Bezier::ease_out("o").generate(), "bezier = o, 0, 0, 0.58, 1");
}

#[test]
fn animation_line_with_and_without_style() {
    let a = Animation::new("windows", &7.0f32.to_string(), "myBezier").style("slide");
    assert_eq!(a.generate(), "animation = windows, 1, 7, myBezier, slide");
    assert_eq!(Animation::new("fade", "3", "default").disabled().generate(), "animation = fade, 0, 3, default");
}

#[test]
fn animations_section_block() {
    let sec = AnimationsSection::new()
        .bezier(Bezier::ease_out_back("myBezier"))
        .animation(Animation::new("windows", "7", "myBezier").style("slide"))
        .animation(Animation::new("workspaces", "6", "default"));
    assert_eq!(
        sec.generate(),
        "animations {\n    enabled = 1\n    bezier = myBezier, 0.05, 0.9, 0.1, 1.05\n    \
         animation = windows, 1, 7, myBezier, slide\n    animation = workspaces, 1, 6, default\n}"
    );
    assert_eq!(AnimationsSection::disabled().generate(), "animations {\n    enabled = 0\n}");
}

#[test]
fn monitor_lines_and_validation() {
    assert_eq!(MonitorConfig::new("eDP-1", "1920x1080@60", "0x0", "1").generate(), "monitor=eDP-1,1920x1080@60,0x0,1");
    assert_eq!(MonitorConfig::auto().generate(), "monitor=,preferred,auto,1");
    let m = MonitorConfig::new("DP-1", "3840x2160@60", "1920x0", "2").transform(1).mirror("eDP-1").bitdepth(10).vrr(1);
    assert_eq!(m.generate(), "monitor=DP-1,3840x2160@60,1920x0,2,transform:1,mirror:eDP-1,bitdepth:10,vrr:1");
    assert_eq!(m.validate(), Ok(()));
    assert_eq!(
        MonitorConfig::auto().transform(8).validate(),
        Err("Monitor transform 8 is out of range (valid: 0–7)".to_string())
    );
    assert_eq!(MonitorConfig::auto().vrr(3).validate(), Err("Monitor vrr 3 is out of range (valid: 0–2)".to_string()));
}

#[test]
fn dwindle_master_monocle_blocks() {
    let d = DwindleLayout::new().pseudotile(true).preserve_split(true).force_split(2).default_split_ratio_text("1.2");
    assert_eq!(
        d.generate(),
        "dwindle {\n    pseudotile = true\n    preserve_split = true\n    force_split = 2\n    default_split_ratio = 1.2\n}"
    );
    let m = MasterLayout::new().mfact_text(&0.55f32.to_string()).new_status("master").no_gaps_when_only(1);
    assert_eq!(m.generate(), "master {\n    mfact = 0.55\n    new_status = master\n    no_gaps_when_only = 1\n}");
    let mo = MonocleLayout::new().center(true).special_scale_factor_text("0.8");
    assert_eq!(
        mo.generate(),
        "plugin {\n    monocle {\n        center = true\n        special_scale_factor = 0.8\n    }\n}"
    );
}
