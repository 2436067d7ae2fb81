use toconfig::helix::context::{toml_str, toml_str_array, HelixConfig};
use toconfig::helix::editor::{
    Bufferline, CursorKind, CursorShapeSection, EditorSection, IndentGuidesSection, LspSection,
    SearchSection, SoftWrapSection, StatuslineElement, StatuslineSection,
};
use toconfig::helix::keys::{KeyAction, KeyBinding, KeyMode, KeysSection};
use toconfig::helix::section::{RawToml, TomlSection};
use toconfig::helix::theme::ThemeSetting;

#[test]
fn toml_strings_are_escaped_and_quoted() {
    assert_eq!(toml_str("plain"), "\"plain\"");
    assert_eq!(toml_str("a\"b\\c"), "\"a\\\"b\\\\c\"");
    assert_eq!(toml_str_array(&["a".to_string(), "b\"".to_string()]), "[\"a\", \"b\\\"\"]");
    assert_eq!(toml_str_array(&[]), "[]");
}

#[test]
fn cursor_shape_doc_example() {
    let sec = CursorShapeSection::new()
        .normal(CursorKind::Block)
        .insert(CursorKind::Bar)
        .select(CursorKind::Underline);
    let out = sec.generate();
    assert!(out.contains("[editor.cursor-shape]"));
    assert!(out.contains("insert = \"bar\""));
    assert_eq!(
        out,
        "[editor.cursor-shape]\nnormal = \"block\"\ninsert = \"bar\"\nselect = \"underline\""
    );
    assert_eq!(CursorShapeSection::new().generate(), "");
}

#[test]
fn statusline_doc_example() {
    let sec = StatuslineSection::new()
        .left(vec![StatuslineElement::Mode, StatuslineElement::Spinner, StatuslineElement::FileName])
        .right(vec![StatuslineElement::Diagnostics, StatuslineElement::Position, StatuslineElement::FileType])
        .separator("│");
    let out = sec.generate();
    assert!(out.contains("[editor.statusline]"));
    assert!(out.contains("separator = \"│\""));
}

#[test]
fn lsp_doc_example() {
    let sec = LspSection::new().display_inlay_hints(true).display_messages(true);
    let out = sec.generate();
    assert!(out.contains("[editor.lsp]"));
    assert!(out.contains("display-inlay-hints = true"));
}

#[test]
fn indent_guides_doc_example() {
    let sec = IndentGuidesSection::new().render(true).character("╎").skip_levels(1);
    let out = sec.generate();
    assert!(out.contains("[editor.indent-guides]"));
    assert!(out.contains("character = \"╎\""));
}

#[test]
fn editor_doc_example() {
    let editor = EditorSection::new()
        .line_number("relative")
        .mouse(false)
        .scrolloff(5)
        .color_modes(true)
        .bufferline(Bufferline::Always)
        .cursor_shape(
            CursorShapeSection::new()
                .normal(CursorKind::Block)
                .insert(CursorKind::Bar)
                .select(CursorKind::Underline),
        )
        .statusline(
            StatuslineSection::new()
                .left(vec![StatuslineElement::Mode, StatuslineElement::Spinner])
                .right(vec![StatuslineElement::Position, StatuslineElement::FileType]),
        )
        .lsp(LspSection::new().display_inlay_hints(true))
        .search(SearchSection::new().smart_case(true).wrap_around(true))
        .indent_guides(IndentGuidesSection::new().render(true).character("╎"))
        .soft_wrap(SoftWrapSection::new().enable(false));
    let out = editor.generate();
    assert!(out.contains("[editor]"));
    assert!(out.contains("mouse = false"));
    assert!(out.contains("[editor.cursor-shape]"));
    assert!(out.contains("[editor.statusline]"));
    assert!(out.starts_with("[editor]\nline-number = \"relative\"\ncolor-modes = true\nbufferline = \"always\"\nmouse = false\nscrolloff = 5\n\n[editor.cursor-shape]"));
}

#[test]
fn empty_editor_still_has_header() {
    assert_eq!(EditorSection::new().generate(), "[editor]");
}

#[test]
fn keys_doc_example() {
    let sec = KeysSection::new(KeyMode::Normal)
        .bind(KeyBinding::new("C-s", KeyAction::cmd(":write")))
        .bind(KeyBinding::new("space", KeyAction::nested(vec![("f", ":format"), ("w", ":write")])));
    let out = sec.generate();
    assert!(out.contains("[keys.normal]"));
    assert!(out.contains("C-s = \":write\""));
    assert_eq!(
        out,
        "[keys.normal]\nC-s = \":write\"\nspace = { f = \":format\", w = \":write\" }"
    );
}

#[test]
fn keys_sequences_and_validation() {
    let sec = KeysSection::new(KeyMode::Insert)
        .bind(KeyBinding::new("C-j", KeyAction::seq(vec!["normal_mode", "move_line_down"])))
        .cmd("j", "{ j = \"normal_mode\" }");
    assert_eq!(
        sec.generate(),
        "[keys.insert]\nC-j = [\"normal_mode\", \"move_line_down\"]\nj = \"{ j = \"normal_mode\" }\""
    );
    assert_eq!(KeysSection::new(KeyMode::Select).generate(), "");
    let bad = KeysSection::new(KeyMode::Normal).cmd("", ":q");
    assert_eq!(bad.validate(), Err("KeysSection: key string cannot be empty".to_string()));
    assert_eq!(sec.validate(), Ok(()));
}

#[test]
fn toml_section_doc_example() {
    let sec = TomlSection::new("editor.gutters").pair("layout", "[\"diagnostics\", \"line-numbers\"]");
    let out = sec.generate();
    assert!(out.contains("[editor.gutters]"));
    assert!(out.contains("layout"));
    let s2 = TomlSection::new("x").str_pair("k", "v\"").blank().comment("note");
    assert_eq!(s2.generate(), "[x]\nk = \"v\\\"\"\n\n# note");
}

#[test]
fn raw_toml_doc_example() {
    let raw = RawToml::new("[editor.auto-pairs]\n\"(\" = \")\"\n\"[\" = \"]\"");
    assert!(raw.generate().contains("[editor.auto-pairs]"));
}

#[test]
fn theme_doc_example_and_error() {
    let t = ThemeSetting::new("gruvbox_dark");
    assert_eq!(t.generate(), "theme = \"gruvbox_dark\"");
    assert_eq!(
        ThemeSetting::new("").validate(),
        Err("ThemeSetting: theme name cannot be empty".to_string())
    );
}
