use toconfig::fontconfig::alias::Alias;
use toconfig::fontconfig::description::Description;
use toconfig::fontconfig::dir::{CacheDir, Dir, Include};
use toconfig::fontconfig::match_rule::{Edit, EditBinding, EditMode, Match, MatchTarget, Test, TestCompare, TestQual};
use toconfig::fontconfig::select::{Glob, PatternElement, SelectAction, SelectFont, SelectPattern};
use toconfig::fontconfig::value::{xml_escape, FontconfigValue};
use toconfig::fontconfig::{FontconfigConfig, FontconfigDocument, FontconfigRenderContext};

#[test]
fn xml_escape_replaces_specials() {
    assert_eq!(xml_escape("a<b>&\"c'"), "a&lt;b&gt;&amp;&quot;c&apos;");
    assert_eq!(xml_escape("plain text"), "plain text");
    assert_eq!(xml_escape("&amp;"), "&amp;amp;");
}

#[test]
fn alias_doc_example() {
    let alias = Alias::new("sans-serif").prefer(&["Noto Sans", "DejaVu Sans"]).accept(&["Liberation Sans"]);
    let out = alias.generate();
    assert!(out.contains("<family>sans-serif</family>"));
    assert!(out.contains("<prefer>"));
    assert!(out.contains("<family>Noto Sans</family>"));
    assert!(out.contains("<accept>"));
    assert!(out.contains("<family>Liberation Sans</family>"));
    assert_eq!(
        out,
        "<alias>\n  <family>sans-serif</family>\n  <prefer>\n    <family>Noto Sans</family>\n    <family>DejaVu Sans</family>\n  </prefer>\n  <accept>\n    <family>Liberation Sans</family>\n  </accept>\n</alias>"
    );
}

#[test]
fn alias_mutating_builders_and_validation() {
    let mut a = Alias::new("serif");
    a.add_default("Noto Serif");
    assert_eq!(
        a.generate(),
        "<alias>\n  <family>serif</family>\n  <default>\n    <family>Noto Serif</family>\n  </default>\n</alias>"
    );
    assert_eq!(Alias::new("").validate(), Err("Alias family name must not be empty".to_string()));
}

#[test]
fn document_doc_example() {
    let doc = FontconfigDocument::new()
        .push(Box::new(Dir::new("~/.local/share/fonts")))
        .push(Box::new(Alias::new("sans-serif").prefer(&["Noto Sans", "DejaVu Sans"])));
    let out = doc.generate();
    assert!(out.starts_with("<?xml"));
    assert!(out.contains("<fontconfig>"));
    assert!(out.contains("<dir>~/.local/share/fonts</dir>"));
    assert!(out.contains("<family>sans-serif</family>"));
}

#[test]
fn document_exact_frame() {
    let doc = FontconfigDocument::new().push(Box::new(Description::new("fonts & more")));
    assert_eq!(
        doc.generate(),
        "<?xml version=\"1.0\"?>\n<!DOCTYPE fontconfig SYSTEM \"fonts.dtd\">\n<fontconfig>\n  <description>fonts &amp; more</description>\n</fontconfig>"
    );
}

#[test]
fn module_quick_start_example() {
    let doc = FontconfigDocument::new()
        .push(Box::new(Description::new("Personal font preferences")))
        .push(Box::new(Dir::new("~/.local/share/fonts")))
        .push(Box::new(Dir::new("fonts").prefix("xdg")))
        .push(Box::new(CacheDir::new("~/.cache/fontconfig")))
        .push(Box::new(Include::new("conf.d").ignore_missing(true)))
        .push(Box::new(Alias::new("sans-serif").prefer(&["Noto Sans"]).accept(&["DejaVu Sans"])))
        .push(Box::new(Alias::new("monospace").prefer(&["JetBrains Mono", "Noto Mono"])))
        .push(Box::new(
            Match::new()
                .target(MatchTarget::Pattern)
                .test(Test::new("family", FontconfigValue::string("Helvetica")))
                .edit(
                    Edit::new("family", FontconfigValue::string("Noto Sans"))
                        .mode(EditMode::Prepend)
                        .binding(EditBinding::Strong),
                ),
        ))
        .push(Box::new(SelectFont::new().block(
            SelectAction::Reject,
            vec![],
            vec![Glob::new("/usr/share/fonts/misc/*")],
        )));
    let xml = doc.generate();
    assert!(xml.starts_with("<?xml version=\"1.0\"?>"));
    assert!(xml.contains("<fontconfig>"));
    assert!(xml.contains("<alias>"));
    assert!(xml.contains("<match target=\"pattern\">"));
    assert!(xml.contains("<selectfont>"));
    assert!(xml.contains("</fontconfig>"));
    assert_eq!(doc.validate_all(), Ok(()));
}

#[test]
fn document_collects_all_errors() {
    let doc = FontconfigDocument::new()
        .push(Box::new(Dir::new("")))
        .push(Box::new(Glob::new("*.ttf")))
        .push(Box::new(Glob::new("")));
    assert_eq!(
        doc.validate_all(),
        Err(vec!["Dir path must not be empty".to_string(), "Glob pattern must not be empty".to_string()])
    );
}

#[test]
fn description_doc_example() {
    let d = Description::new("My custom font preferences");
    assert_eq!(d.generate(), "<description>My custom font preferences</description>");
}

#[test]
fn dir_doc_examples() {
    assert_eq!(Dir::new("~/.local/share/fonts").generate(), "<dir>~/.local/share/fonts</dir>");
    let xdg = Dir::new("fonts").prefix("xdg");
    assert!(xdg.generate().contains(r#"prefix="xdg""#));
    assert_eq!(Dir::new("f").prefix("xdg").salt("s").generate(), "<dir prefix=\"xdg\" salt=\"s\">f</dir>");
    assert_eq!(CacheDir::new("~/.cache/fontconfig").generate(), "<cachedir>~/.cache/fontconfig</cachedir>");
    assert_eq!(Dir::new("").validate(), Err("Dir path must not be empty".to_string()));
    assert_eq!(CacheDir::new("").validate(), Err("CacheDir path must not be empty".to_string()));
}

#[test]
fn include_doc_example() {
    let inc = Include::new("conf.d").ignore_missing(true);
    assert!(inc.generate().contains(r#"ignore_missing="yes""#));
    assert!(inc.generate().contains("conf.d"));
    assert_eq!(inc.generate(), "<include ignore_missing=\"yes\">conf.d</include>");
    assert_eq!(Include::new("").validate(), Err("Include path must not be empty".to_string()));
}

#[test]
fn values_render() {
    let ctx = FontconfigRenderContext::default();
    assert_eq!(FontconfigValue::string("Noto Sans").render_xml(&ctx), "<string>Noto Sans</string>");
    assert_eq!(FontconfigValue::integer(12).render_xml(&ctx), "<int>12</int>");
    assert_eq!(FontconfigValue::integer(-3).render_xml(&ctx), "<int>-3</int>");
    assert_eq!(FontconfigValue::boolean(true).render_xml(&ctx), "<bool>true</bool>");
    assert_eq!(FontconfigValue::constant("hintslight").render_xml(&ctx), "<const>hintslight</const>");
    assert_eq!(FontconfigValue::name("pixelsize").render_xml(&ctx), "<name>pixelsize</name>");
    assert_eq!(FontconfigValue::double("1.5").render_xml(&ctx), "<double>1.5</double>");
    assert_eq!(
        FontconfigValue::range("0", "12.5").render_xml(&ctx),
        "<range>\n  <double>0</double>\n  <double>12.5</double>\n</range>"
    );
    assert_eq!(
        FontconfigValue::list(vec![FontconfigValue::string("a"), FontconfigValue::integer(1)]).render_xml(&ctx),
        "<list>\n  <string>a</string>\n  <int>1</int>\n</list>"
    );
}

#[test]
fn test_and_edit_doc_examples() {
    let t = Test::new("family", FontconfigValue::string("Helvetica")).compare(TestCompare::Eq);
    let out = t.generate();
    assert!(out.contains(r#"name="family""#));
    assert!(out.contains("<string>Helvetica</string>"));
    assert_eq!(out, "<test name=\"family\" compare=\"eq\">\n  <string>Helvetica</string>\n</test>");
    let e = Edit::new("family", FontconfigValue::string("Noto Sans"))
        .mode(EditMode::Prepend)
        .binding(EditBinding::Strong);
    let out = e.generate();
    assert!(out.contains(r#"name="family""#));
    assert!(out.contains(r#"mode="prepend""#));
    assert!(out.contains(r#"binding="strong""#));
    assert!(out.contains("<string>Noto Sans</string>"));
}

#[test]
fn test_attributes_in_order() {
    let t = Test::new("weight", FontconfigValue::integer(80))
        .target(MatchTarget::Font)
        .compare(TestCompare::LessEq)
        .qual(TestQual::All);
    assert_eq!(
        t.generate(),
        "<test name=\"weight\" qual=\"all\" compare=\"less_eq\" target=\"font\">\n  <int>80</int>\n</test>"
    );
    assert_eq!(
        Test::new("", FontconfigValue::integer(1)).validate(),
        Err("Test property name must not be empty".to_string())
    );
    assert_eq!(
        Edit::new("", FontconfigValue::integer(1)).validate(),
        Err("Edit property name must not be empty".to_string())
    );
}

#[test]
fn match_doc_example() {
    let rule = Match::new()
        .target(MatchTarget::Pattern)
        .test(Test::new("family", FontconfigValue::string("Helvetica")))
        .edit(
            Edit::new("family", FontconfigValue::string("Helvetica Neue"))
                .mode(EditMode::Prepend)
                .binding(EditBinding::Strong),
        );
    let out = rule.generate();
    assert!(out.contains(r#"<match target="pattern">"#));
    assert!(out.contains("<test"));
    assert!(out.contains("<edit"));
    let plain = Match::new();
    assert_eq!(plain.generate(), "<match>\n</match>");
}

#[test]
fn select_doc_examples() {
    let pe = PatternElement::new("scalable", FontconfigValue::boolean(false));
    let out = pe.generate();
    assert!(out.contains(r#"name="scalable""#));
    assert!(out.contains("<bool>false</bool>"));
    let pat = SelectPattern::new().element(PatternElement::new("family", FontconfigValue::string("Arial")));
    let out = pat.generate();
    assert!(out.contains("<pattern>"));
    assert!(out.contains("Arial"));
    let g = Glob::new("/usr/share/fonts/noto/*");
    assert!(g.generate().contains("<glob>/usr/share/fonts/noto/*</glob>"));
    let sf = SelectFont::new().block(SelectAction::Reject, vec![], vec![Glob::new("/usr/share/fonts/Type1/*")]);
    let out = sf.generate();
    assert!(out.contains("<selectfont>"));
    assert!(out.contains("<rejectfont>"));
    assert!(out.contains("/usr/share/fonts/Type1/*"));
}

#[test]
fn selectfont_exact_layout() {
    let mut sf = SelectFont::new();
    sf.add_block(
        SelectAction::Accept,
        vec![SelectPattern::new().element(PatternElement::new("scalable", FontconfigValue::boolean(true)))],
        vec![],
    );
    assert_eq!(
        sf.generate(),
        "<selectfont>\n  <acceptfont>\n    <pattern>\n      <patelt name=\"scalable\">\n        <bool>true</bool>\n      </patelt>\n    </pattern>\n  </acceptfont>\n</selectfont>"
    );
    assert_eq!(
        PatternElement::new("", FontconfigValue::boolean(true)).validate(),
        Err("PatternElement name must not be empty".to_string())
    );
}
