use toconfig::gtk::{GtkCss, GtkSettings, GtkVersion, HintStyle, RgbaMethod};
use toconfig::ini::{IniConfig, IniFile, IniSection};

#[test]
fn ini_section_doc_example() {
    let s = IniSection::new("Settings")
        .set("gtk-theme-name", "Catppuccin-Mocha-Standard-Blue-Dark")
        .set("gtk-xft-antialias", "1");
    assert!(s.generate().starts_with("[Settings]"));
}

#[test]
fn ini_file_doc_example() {
    let file = IniFile::new()
        .section(IniSection::new("A").set("x", "1"))
        .section(IniSection::new("B").set("y", "2"));
    let out = file.generate();
    assert!(out.contains("[A]"));
    assert!(out.contains("[B]"));
}

#[test]
fn gtk_settings_doc_example() {
    let cfg = GtkSettings::new(GtkVersion::Gtk3)
        .theme("Catppuccin-Mocha-Standard-Blue-Dark")
        .icon_theme("Papirus-Dark")
        .cursor_theme("Bibata-Modern-Ice")
        .cursor_size(24)
        .font("JetBrains Mono 11")
        .prefer_dark(true)
        .antialias(true)
        .hint_style(HintStyle::Full)
        .rgba(RgbaMethod::Rgb);
    let out = cfg.generate();
    assert!(out.contains("[Settings]"));
}

#[test]
fn gtk_css_doc_example() {
    let css = GtkCss::new().rule("window { border-radius: 8px; }").rule("button { padding: 4px 8px; }");
    assert!(css.generate().contains("border-radius"));
}

#[test]
fn ini_exact_text() {
    let file = IniFile::new()
        .section(IniSection::new("A").set("x", "1"))
        .section(IniSection::new("B").set("y", "2").set("z", "3"));
    assert_eq!(file.generate(), "[A]\nx=1\n\n[B]\ny=2\nz=3");
    assert_eq!(IniFile::new().generate(), "");
}

#[test]
fn gtk_settings_exact_text_and_validation() {
    let cfg = GtkSettings::new(GtkVersion::Gtk4).theme("Adwaita").cursor_size(32).prefer_dark(true);
    assert_eq!(
        cfg.generate(),
        "[Settings]\ngtk-theme-name=Adwaita\ngtk-cursor-theme-size=32\ngtk-application-prefer-dark-theme=1"
    );
    assert_eq!(cfg.validate(), Ok(()));
    let mut no_version = GtkSettings::new(GtkVersion::Gtk3);
    no_version.version = None;
    assert_eq!(no_version.validate(), Err("GtkSettings: version must be set".to_string()));
    assert_eq!(GtkVersion::Gtk3.config_dir(), "gtk-3.0");
}
