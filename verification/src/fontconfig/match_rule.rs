//! Conditional font substitution: `<match>`, `<test>` and `<edit>`.
use vstd::prelude::*;
use crate::fontconfig::context::{FontconfigConfig, FontconfigRenderContext};
use crate::fontconfig::value::{value_ok, value_xml, xml_escape, xml_escaped, FontconfigValue};
use crate::text::{
    cat2, cat3, cat4, is_empty_str, join, join_strings, lemma_occurs_at, lemma_occurs_within,
    occurs_in, owned, push_part, views,
};

verus! {

/// The `target` attribute of a `<match>` element.
///
/// Controls which stage of font lookup the match rule applies to.
#[derive(Debug, Clone, Copy, PartialEq, Eq)]
pub enum MatchTarget {
    /// Apply to the initial pattern before font lookup (default).
    Pattern,
    /// Apply after a font has been selected.
    Font,
    /// Apply during the font scanning phase.
    Scan,
}

impl MatchTarget {
    /// The attribute value of this variant.
    pub open spec fn spec_str(self) -> Seq<char> {
        match self {
            MatchTarget::Pattern => "pattern"@,
            MatchTarget::Font => "font"@,
            MatchTarget::Scan => "scan"@,
        }
    }

    fn as_str(self) -> (r: &'static str)
        ensures
            r@ == self.spec_str(),
    {
        match self {
            MatchTarget::Pattern => "pattern",
            MatchTarget::Font => "font",
            MatchTarget::Scan => "scan",
        }
    }
}

/// The `qual` attribute of a `<test>` element.
///
/// Determines which elements of a list property are compared.
#[derive(Debug, Clone, Copy, PartialEq, Eq)]
pub enum TestQual {
    /// True if *any* element matches (default).
    Any,
    /// True only if *all* elements match.
    All,
    /// True if the *first* element matches.
    First,
    /// True if *no* element matches.
    Not,
}

impl TestQual {
    /// The attribute value of this variant.
    pub open spec fn spec_str(self) -> Seq<char> {
        match self {
            TestQual::Any => "any"@,
            TestQual::All => "all"@,
            TestQual::First => "first"@,
            TestQual::Not => "not"@,
        }
    }

    fn as_str(self) -> (r: &'static str)
        ensures
            r@ == self.spec_str(),
    {
        match self {
            TestQual::Any => "any",
            TestQual::All => "all",
            TestQual::First => "first",
            TestQual::Not => "not",
        }
    }
}

/// The `compare` attribute of a `<test>` element.
#[derive(Debug, Clone, Copy, PartialEq, Eq)]
pub enum TestCompare {
    /// Property equals value (default).
    Eq,
    /// Property is less than value.
    Less,
    /// Property is less than or equal to value.
    LessEq,
    /// Property is greater than value.
    More,
    /// Property is greater than or equal to value.
    MoreEq,
    /// Property does not equal value.
    NotEq,
    /// Property list contains value.
    Contains,
    /// Property list does not contain value.
    NotContains,
}

impl TestCompare {
    /// The attribute value of this variant.
    pub open spec fn spec_str(self) -> Seq<char> {
        match self {
            TestCompare::Eq => "eq"@,
            TestCompare::Less => "less"@,
            TestCompare::LessEq => "less_eq"@,
            TestCompare::More => "more"@,
            TestCompare::MoreEq => "more_eq"@,
            TestCompare::NotEq => "not_eq"@,
            TestCompare::Contains => "contains"@,
            TestCompare::NotContains => "not_contains"@,
        }
    }

    fn as_str(self) -> (r: &'static str)
        ensures
            r@ == self.spec_str(),
    {
        match self {
            TestCompare::Eq => "eq",
            TestCompare::Less => "less",
            TestCompare::LessEq => "less_eq",
            TestCompare::More => "more",
            TestCompare::MoreEq => "more_eq",
            TestCompare::NotEq => "not_eq",
            TestCompare::Contains => "contains",
            TestCompare::NotContains => "not_contains",
        }
    }
}

/// The `mode` attribute of an `<edit>` element.
///
/// Controls how the new value is combined with any existing property values.
#[derive(Debug, Clone, Copy, PartialEq, Eq)]
pub enum EditMode {
    /// Replace the value with the new value (default).
    Assign,
    /// Replace the entire list with the new value.
    AssignReplace,
    /// Insert the new value before the first matching value.
    Prepend,
    /// Insert the new value at the beginning of the list.
    PrependFirst,
    /// Append the new value after the last matching value.
    Append,
    /// Append the new value at the end of the list.
    AppendLast,
    /// Delete matching values.
    Delete,
    /// Delete all values.
    DeleteAll,
}

impl EditMode {
    /// The attribute value of this variant.
    pub open spec fn spec_str(self) -> Seq<char> {
        match self {
            EditMode::Assign => "assign"@,
            EditMode::AssignReplace => "assign_replace"@,
            EditMode::Prepend => "prepend"@,
            EditMode::PrependFirst => "prepend_first"@,
            EditMode::Append => "append"@,
            EditMode::AppendLast => "append_last"@,
            EditMode::Delete => "delete"@,
            EditMode::DeleteAll => "delete_all"@,
        }
    }

    fn as_str(self) -> (r: &'static str)
        ensures
            r@ == self.spec_str(),
    {
        match self {
            EditMode::Assign => "assign",
            EditMode::AssignReplace => "assign_replace",
            EditMode::Prepend => "prepend",
            EditMode::PrependFirst => "prepend_first",
            EditMode::Append => "append",
            EditMode::AppendLast => "append_last",
            EditMode::Delete => "delete",
            EditMode::DeleteAll => "delete_all",
        }
    }
}

/// The variant whose text is `text`, if any.
pub open spec fn edit_mode_of(text: Seq<char>) -> Option<EditMode> {
    if false {
        None
    } else if text == "assign"@ {
        Some(EditMode::Assign)
    } else if text == "assign_replace"@ {
        Some(EditMode::AssignReplace)
    } else if text == "prepend"@ {
        Some(EditMode::Prepend)
    } else if text == "prepend_first"@ {
        Some(EditMode::PrependFirst)
    } else if text == "append"@ {
        Some(EditMode::Append)
    } else if text == "append_last"@ {
        Some(EditMode::AppendLast)
    } else if text == "delete"@ {
        Some(EditMode::Delete)
    } else if text == "delete_all"@ {
        Some(EditMode::DeleteAll)
    } else {
        None
    }
}

/// Each variant is found again from its text.
proof fn lemma_edit_mode_decodes(v: EditMode)
    ensures
        edit_mode_of(v.spec_str()) == Some(v),
{
    match v {
        EditMode::Assign => {
            assert(edit_mode_of("assign"@) == Some(EditMode::Assign)) by {
                reveal_strlit("assign");
                assert("assign"@.len() == 6);
            }
        },
        EditMode::AssignReplace => {
            assert(edit_mode_of("assign_replace"@) == Some(EditMode::AssignReplace)) by {
                reveal_strlit("assign_replace");
                assert("assign_replace"@.len() == 14);
                reveal_strlit("assign");
                assert("assign"@.len() == 6);
            }
        },
        EditMode::Prepend => {
            assert(edit_mode_of("prepend"@) == Some(EditMode::Prepend)) by {
                reveal_strlit("prepend");
                assert("prepend"@.len() == 7);
                reveal_strlit("assign");
                assert("assign"@.len() == 6);
                reveal_strlit("assign_replace");
                assert("assign_replace"@.len() == 14);
            }
        },
        EditMode::PrependFirst => {
            assert(edit_mode_of("prepend_first"@) == Some(EditMode::PrependFirst)) by {
                reveal_strlit("prepend_first");
                assert("prepend_first"@.len() == 13);
                reveal_strlit("assign");
                assert("assign"@.len() == 6);
                reveal_strlit("assign_replace");
                assert("assign_replace"@.len() == 14);
                reveal_strlit("prepend");
                assert("prepend"@.len() == 7);
            }
        },
        EditMode::Append => {
            assert(edit_mode_of("append"@) == Some(EditMode::Append)) by {
                reveal_strlit("append");
                assert("append"@.len() == 6);
                reveal_strlit("assign");
                assert("append"@[1] != "assign"@[1]);
                reveal_strlit("assign_replace");
                assert("assign_replace"@.len() == 14);
                reveal_strlit("prepend");
                assert("prepend"@.len() == 7);
                reveal_strlit("prepend_first");
                assert("prepend_first"@.len() == 13);
            }
        },
        EditMode::AppendLast => {
            assert(edit_mode_of("append_last"@) == Some(EditMode::AppendLast)) by {
                reveal_strlit("append_last");
                assert("append_last"@.len() == 11);
                reveal_strlit("assign");
                assert("assign"@.len() == 6);
                reveal_strlit("assign_replace");
                assert("assign_replace"@.len() == 14);
                reveal_strlit("prepend");
                assert("prepend"@.len() == 7);
                reveal_strlit("prepend_first");
                assert("prepend_first"@.len() == 13);
                reveal_strlit("append");
                assert("append"@.len() == 6);
            }
        },
        EditMode::Delete => {
            assert(edit_mode_of("delete"@) == Some(EditMode::Delete)) by {
                reveal_strlit("delete");
                assert("delete"@.len() == 6);
                reveal_strlit("assign");
                assert("delete"@[0] != "assign"@[0]);
                reveal_strlit("assign_replace");
                assert("assign_replace"@.len() == 14);
                reveal_strlit("prepend");
                assert("prepend"@.len() == 7);
                reveal_strlit("prepend_first");
                assert("prepend_first"@.len() == 13);
                reveal_strlit("append");
                assert("delete"@[0] != "append"@[0]);
                reveal_strlit("append_last");
                assert("append_last"@.len() == 11);
            }
        },
        EditMode::DeleteAll => {
            assert(edit_mode_of("delete_all"@) == Some(EditMode::DeleteAll)) by {
                reveal_strlit("delete_all");
                assert("delete_all"@.len() == 10);
                reveal_strlit("assign");
                assert("assign"@.len() == 6);
                reveal_strlit("assign_replace");
                assert("assign_replace"@.len() == 14);
                reveal_strlit("prepend");
                assert("prepend"@.len() == 7);
                reveal_strlit("prepend_first");
                assert("prepend_first"@.len() == 13);
                reveal_strlit("append");
                assert("append"@.len() == 6);
                reveal_strlit("append_last");
                assert("append_last"@.len() == 11);
                reveal_strlit("delete");
                assert("delete"@.len() == 6);
            }
        },
    }
}

/// Distinct edit modes are written with distinct `mode` keywords, so the
/// mode attribute always says which combination fontconfig applies.
pub proof fn edit_modes_have_distinct_keywords(a: EditMode, b: EditMode)
    requires
        a != b,
    ensures
        a.spec_str() != b.spec_str(),
{
    lemma_edit_mode_decodes(a);
    lemma_edit_mode_decodes(b);
}

/// The `binding` attribute of an `<edit>` element.
///
/// Controls the substitution binding strength when resolving font families.
#[derive(Debug, Clone, Copy, PartialEq, Eq)]
pub enum EditBinding {
    /// Weak binding — easily overridden.
    Weak,
    /// Strong binding — not overridden by weaker substitutions.
    Strong,
    /// Keep the binding strength of the value it replaces.
    Same,
}

impl EditBinding {
    /// The attribute value of this variant.
    pub open spec fn spec_str(self) -> Seq<char> {
        match self {
            EditBinding::Weak => "weak"@,
            EditBinding::Strong => "strong"@,
            EditBinding::Same => "same"@,
        }
    }

    fn as_str(self) -> (r: &'static str)
        ensures
            r@ == self.spec_str(),
    {
        match self {
            EditBinding::Weak => "weak",
            EditBinding::Strong => "strong",
            EditBinding::Same => "same",
        }
    }
}

impl Default for MatchTarget {
    fn default() -> (r: Self)
        ensures
            r == MatchTarget::Pattern,
    {
        MatchTarget::Pattern
    }
}

/// ` name="value"` for a set attribute, or nothing.
pub open spec fn enum_attr(name: Seq<char>, v: Option<Seq<char>>) -> Seq<char> {
    match v {
        Some(x) => " "@ + name + "=\""@ + x + "\""@,
        None => Seq::empty(),
    }
}

fn push_enum_attr(attrs: &mut String, name: &str, v: Option<&'static str>)
    ensures
        final(attrs)@ == old(attrs)@ + enum_attr(
            name@,
            match v {
                Some(x) => Some(x@),
                None => None,
            },
        ),
{
    match v {
        Some(x) => {
            let t = cat4(" ", name, "=\"", x);
            attrs.append(t.as_str());
            attrs.append("\"");
        },
        None => {},
    }
}

/// An element `<tag attrs>`, the value one level deeper, and `</tag>`.
pub open spec fn valued_element(
    ctx: FontconfigRenderContext,
    tag: Seq<char>,
    attrs: Seq<char>,
    value: FontconfigValue,
) -> Seq<char> {
    ctx.spec_indent() + "<"@ + tag + " "@ + attrs + ">\n"@ + value_xml(value, ctx.spec_deeper())
        + "\n"@ + ctx.spec_indent() + "</"@ + tag + ">"@
}

/// A value can be rendered one level below `ctx`, which itself can be indented.
pub open spec fn valued_ok(ctx: FontconfigRenderContext, value: FontconfigValue) -> bool {
    &&& ctx.fits()
    &&& ctx.indent_level < usize::MAX
    &&& value_ok(value, ctx.spec_deeper())
}

fn render_valued_element(
    ctx: &FontconfigRenderContext,
    tag: &str,
    attrs: &str,
    value: &FontconfigValue,
) -> (r: String)
    requires
        valued_ok(*ctx, *value),
    ensures
        r@ == valued_element(*ctx, tag@, attrs@, *value),
{
    let indent = ctx.indent();
    let inner = ctx.deeper();
    let v = value.render_xml(&inner);
    let head = cat4(indent.as_str(), "<", tag, " ");
    let head = cat3(head.as_str(), attrs, ">\n");
    let body = cat3(head.as_str(), v.as_str(), "\n");
    let r = cat4(body.as_str(), indent.as_str(), "</", tag);
    let r = cat2(r.as_str(), ">");
    assert(r@ =~= valued_element(*ctx, tag@, attrs@, *value));
    r
}

/// `name="…"` with the property name escaped.
pub open spec fn name_attr(name: Seq<char>) -> Seq<char> {
    "name=\""@ + xml_escaped(name) + "\""@
}

fn name_attr_text(name: &str) -> (r: String)
    ensures
        r@ == name_attr(name@),
{
    let e = xml_escape(name);
    cat3("name=\"", e.as_str(), "\"")
}

// ── Test ─────────────────────────────────────────────────────────────────────

/// A `<test>` inside a match rule: a font property compared with a value.
pub struct Test {
    /// Font property name (e.g. `"family"`, `"weight"`).
    pub name: String,
    /// Value to compare against.
    pub value: FontconfigValue,
    /// Qualification for list properties.
    pub qual: Option<TestQual>,
    /// Comparison operator.
    pub compare: Option<TestCompare>,
    /// Which target the test applies to.
    pub target: Option<MatchTarget>,
}

impl Test {
    /// A basic test on `name`.
    pub fn new(name: &str, value: FontconfigValue) -> (r: Self)
        ensures
            r.name@ == name@,
            r.value == value,
            r.qual is None,
            r.compare is None,
            r.target is None,
    {
        Test { name: owned(name), value, qual: None, compare: None, target: None }
    }

    /// Set the `qual` attribute.
    pub fn qual(self, qual: TestQual) -> (r: Self)
        ensures
            r == (Test { qual: Some(qual), ..self }),
    {
        Test { qual: Some(qual), ..self }
    }

    /// Set the `compare` attribute.
    pub fn compare(self, compare: TestCompare) -> (r: Self)
        ensures
            r == (Test { compare: Some(compare), ..self }),
    {
        Test { compare: Some(compare), ..self }
    }

    /// Set the `target` attribute.
    pub fn target(self, target: MatchTarget) -> (r: Self)
        ensures
            r == (Test { target: Some(target), ..self }),
    {
        Test { target: Some(target), ..self }
    }

    /// The attributes of the element.
    pub open spec fn spec_attrs(&self) -> Seq<char> {
        name_attr(self.name@) + enum_attr(
            "qual"@,
            match self.qual {
                Some(q) => Some(q.spec_str()),
                None => None,
            },
        ) + enum_attr(
            "compare"@,
            match self.compare {
                Some(c) => Some(c.spec_str()),
                None => None,
            },
        ) + enum_attr(
            "target"@,
            match self.target {
                Some(t) => Some(t.spec_str()),
                None => None,
            },
        )
    }
}

/// The XML of a test rendered in `ctx`.
pub open spec fn test_xml(t: Test, ctx: FontconfigRenderContext) -> Seq<char> {
    valued_element(ctx, "test"@, t.spec_attrs(), t.value)
}

impl FontconfigConfig for Test {
    open spec fn spec_render(&self, ctx: FontconfigRenderContext) -> Seq<char> {
        test_xml(*self, ctx)
    }

    open spec fn render_ok(&self, ctx: FontconfigRenderContext) -> bool {
        valued_ok(ctx, self.value)
    }

    open spec fn spec_validate(&self) -> Result<(), Seq<char>> {
        if self.name@.len() == 0 {
            Err("Test property name must not be empty"@)
        } else {
            Ok(())
        }
    }

    fn render(&self, ctx: &FontconfigRenderContext) -> (r: String) {
        let mut attrs = name_attr_text(self.name.as_str());
        push_enum_attr(
            &mut attrs,
            "qual",
            match self.qual {
                Some(q) => Some(q.as_str()),
                None => None,
            },
        );
        push_enum_attr(
            &mut attrs,
            "compare",
            match self.compare {
                Some(c) => Some(c.as_str()),
                None => None,
            },
        );
        push_enum_attr(
            &mut attrs,
            "target",
            match self.target {
                Some(t) => Some(t.as_str()),
                None => None,
            },
        );
        assert(attrs@ =~= self.spec_attrs());
        render_valued_element(ctx, "test", attrs.as_str(), &self.value)
    }

    fn validate(&self) -> (r: Result<(), String>) {
        if is_empty_str(self.name.as_str()) {
            return Err(owned("Test property name must not be empty"));
        }
        Ok(())
    }
}

// ── Edit ─────────────────────────────────────────────────────────────────────

/// An `<edit>` inside a match rule: modifies a font property.
pub struct Edit {
    /// Font property to modify.
    pub name: String,
    /// New value to apply.
    pub value: FontconfigValue,
    /// How to combine the new value with existing values.
    pub mode: Option<EditMode>,
    /// Binding strength of the substitution.
    pub binding: Option<EditBinding>,
}

impl Edit {
    /// A new edit of `name`.
    pub fn new(name: &str, value: FontconfigValue) -> (r: Self)
        ensures
            r.name@ == name@,
            r.value == value,
            r.mode is None,
            r.binding is None,
    {
        Edit { name: owned(name), value, mode: None, binding: None }
    }

    /// Set the `mode` attribute.
    pub fn mode(self, mode: EditMode) -> (r: Self)
        ensures
            r == (Edit { mode: Some(mode), ..self }),
    {
        Edit { mode: Some(mode), ..self }
    }

    /// Set the `binding` attribute.
    pub fn binding(self, binding: EditBinding) -> (r: Self)
        ensures
            r == (Edit { binding: Some(binding), ..self }),
    {
        Edit { binding: Some(binding), ..self }
    }

    /// The attributes of the element.
    pub open spec fn spec_attrs(&self) -> Seq<char> {
        name_attr(self.name@) + enum_attr(
            "mode"@,
            match self.mode {
                Some(m) => Some(m.spec_str()),
                None => None,
            },
        ) + enum_attr(
            "binding"@,
            match self.binding {
                Some(b) => Some(b.spec_str()),
                None => None,
            },
        )
    }
}

/// The XML of an edit rendered in `ctx`.
pub open spec fn edit_xml(e: Edit, ctx: FontconfigRenderContext) -> Seq<char> {
    valued_element(ctx, "edit"@, e.spec_attrs(), e.value)
}

impl FontconfigConfig for Edit {
    open spec fn spec_render(&self, ctx: FontconfigRenderContext) -> Seq<char> {
        edit_xml(*self, ctx)
    }

    open spec fn render_ok(&self, ctx: FontconfigRenderContext) -> bool {
        valued_ok(ctx, self.value)
    }

    open spec fn spec_validate(&self) -> Result<(), Seq<char>> {
        if self.name@.len() == 0 {
            Err("Edit property name must not be empty"@)
        } else {
            Ok(())
        }
    }

    fn render(&self, ctx: &FontconfigRenderContext) -> (r: String) {
        let mut attrs = name_attr_text(self.name.as_str());
        push_enum_attr(
            &mut attrs,
            "mode",
            match self.mode {
                Some(m) => Some(m.as_str()),
                None => None,
            },
        );
        push_enum_attr(
            &mut attrs,
            "binding",
            match self.binding {
                Some(b) => Some(b.as_str()),
                None => None,
            },
        );
        assert(attrs@ =~= self.spec_attrs());
        render_valued_element(ctx, "edit", attrs.as_str(), &self.value)
    }

    fn validate(&self) -> (r: Result<(), String>) {
        if is_empty_str(self.name.as_str()) {
            return Err(owned("Edit property name must not be empty"));
        }
        Ok(())
    }
}

/// An edit with a mode carries it as the attribute `mode="<keyword>"` of its
/// element, the keyword being the mode's own.
pub proof fn edit_carries_its_mode(e: Edit, ctx: FontconfigRenderContext)
    ensures
        e.mode matches Some(m) ==> occurs_in(" mode=\""@ + m.spec_str() + "\""@, e.spec_render(ctx)),
{
    if let Some(m) = e.mode {
        let t = " mode=\""@ + m.spec_str() + "\""@;
        reveal_strlit(" mode=\"");
        reveal_strlit(" ");
        reveal_strlit("mode");
        reveal_strlit("=\"");
        let a = enum_attr("mode"@, Some(m.spec_str()));
        assert(a =~= t);
        lemma_occurs_at(t, t, 0);
        let b = enum_attr(
            "binding"@,
            match e.binding {
                Some(x) => Some(x.spec_str()),
                None => None,
            },
        );
        lemma_occurs_within(t, a, name_attr(e.name@));
        lemma_occurs_within(t, name_attr(e.name@) + a, b);
        let attrs = e.spec_attrs();
        assert(attrs == name_attr(e.name@) + a + b);
        let pre = ctx.spec_indent() + "<"@ + "edit"@ + " "@;
        let post = ">\n"@ + value_xml(e.value, ctx.spec_deeper()) + "\n"@ + ctx.spec_indent() + "</"@
            + "edit"@ + ">"@;
        lemma_occurs_within(t, attrs, pre);
        lemma_occurs_within(t, pre + attrs, post);
        assert(e.spec_render(ctx) =~= pre + attrs + post);
    }
}

// ── Match ─────────────────────────────────────────────────────────────────────

/// A `<match>` rule: when all tests pass, all edits are applied.
pub struct Match {
    /// Which stage the rule applies to.
    pub target: Option<MatchTarget>,
    /// Conditions that must all pass.
    pub tests: Vec<Test>,
    /// Modifications applied when all tests pass.
    pub edits: Vec<Edit>,
}

impl Default for Match {
    fn default() -> (r: Self)
        ensures
            r.target is None,
            r.tests@.len() == 0,
            r.edits@.len() == 0,
    {
        Match { target: None, tests: Vec::new(), edits: Vec::new() }
    }
}

impl Match {
    pub fn new() -> (r: Self)
        ensures
            r.target is None,
            r.tests@.len() == 0,
            r.edits@.len() == 0,
    {
        Self::default()
    }

    /// Set the `target` attribute.
    pub fn target(self, target: MatchTarget) -> (r: Self)
        ensures
            r == (Match { target: Some(target), ..self }),
    {
        Match { target: Some(target), ..self }
    }

    /// Append a `<test>` (consuming builder).
    pub fn test(self, test: Test) -> (r: Self)
        ensures
            r.tests@ == self.tests@.push(test),
            r.target == self.target,
            r.edits == self.edits,
    {
        let mut s = self;
        s.tests.push(test);
        s
    }

    /// Append an `<edit>` (consuming builder).
    pub fn edit(self, edit: Edit) -> (r: Self)
        ensures
            r.edits@ == self.edits@.push(edit),
            r.target == self.target,
            r.tests == self.tests,
    {
        let mut s = self;
        s.edits.push(edit);
        s
    }

    /// Append a `<test>` (mutable borrow).
    pub fn add_test(&mut self, test: Test) -> (r: &mut Self)
        ensures
            r.tests@ == old(self).tests@.push(test),
            r.target == old(self).target,
            r.edits == old(self).edits,
            *final(self) == *final(r),
    {
        self.tests.push(test);
        self
    }

    /// Append an `<edit>` (mutable borrow).
    pub fn add_edit(&mut self, edit: Edit) -> (r: &mut Self)
        ensures
            r.edits@ == old(self).edits@.push(edit),
            r.target == old(self).target,
            r.tests == old(self).tests,
            *final(self) == *final(r),
    {
        self.edits.push(edit);
        self
    }

    /// The opening tag of the rule in `ctx`.
    pub open spec fn spec_open_tag(&self, ctx: FontconfigRenderContext) -> Seq<char> {
        match self.target {
            Some(t) => ctx.spec_indent() + "<match target=\""@ + t.spec_str() + "\">"@,
            None => ctx.spec_indent() + "<match>"@,
        }
    }

    /// The lines of the rule in `ctx`.
    pub open spec fn spec_lines(&self, ctx: FontconfigRenderContext) -> Seq<Seq<char>> {
        seq![self.spec_open_tag(ctx)] + Seq::new(
            self.tests@.len(),
            |i: int| test_xml(self.tests@[i], ctx.spec_deeper()),
        ) + Seq::new(self.edits@.len(), |i: int| edit_xml(self.edits@[i], ctx.spec_deeper()))
            + seq![ctx.spec_indent() + "</match>"@]
    }
}

impl FontconfigConfig for Match {
    open spec fn spec_render(&self, ctx: FontconfigRenderContext) -> Seq<char> {
        join(self.spec_lines(ctx), "\n"@)
    }

    open spec fn render_ok(&self, ctx: FontconfigRenderContext) -> bool {
        &&& ctx.fits()
        &&& ctx.indent_level < usize::MAX
        &&& forall|i: int| 0 <= i < self.tests@.len() ==> valued_ok(ctx.spec_deeper(), (#[trigger] self.tests@[i]).value)
        &&& forall|i: int| 0 <= i < self.edits@.len() ==> valued_ok(ctx.spec_deeper(), (#[trigger] self.edits@[i]).value)
    }

    fn render(&self, ctx: &FontconfigRenderContext) -> (r: String) {
        let indent = ctx.indent();
        let inner_ctx = ctx.deeper();
        let open_tag = match self.target {
            Some(t) => cat4(indent.as_str(), "<match target=\"", t.as_str(), "\">"),
            None => cat2(indent.as_str(), "<match>"),
        };
        let mut lines: Vec<String> = Vec::new();
        push_part(&mut lines, open_tag);
        let ghost tests = Seq::new(
            self.tests@.len(),
            |i: int| test_xml(self.tests@[i], ctx.spec_deeper()),
        );
        let ghost edits = Seq::new(
            self.edits@.len(),
            |i: int| edit_xml(self.edits@[i], ctx.spec_deeper()),
        );
        let mut i: usize = 0;
        while i < self.tests.len()
            invariant
                i <= self.tests@.len(),
                self.render_ok(*ctx),
                inner_ctx == ctx.spec_deeper(),
                tests == Seq::new(
                    self.tests@.len(),
                    |i: int| test_xml(self.tests@[i], ctx.spec_deeper()),
                ),
                views(lines@) == seq![self.spec_open_tag(*ctx)] + tests.take(i as int),
            decreases self.tests@.len() - i,
        {
            assert(valued_ok(inner_ctx, self.tests@[i as int].value));
            push_part(&mut lines, self.tests[i].render(&inner_ctx));
            assert(tests.take(i + 1) =~= tests.take(i as int).push(tests[i as int]));
            i = i + 1;
        }
        assert(tests.take(self.tests@.len() as int) =~= tests);
        let mut j: usize = 0;
        while j < self.edits.len()
            invariant
                j <= self.edits@.len(),
                self.render_ok(*ctx),
                inner_ctx == ctx.spec_deeper(),
                edits == Seq::new(
                    self.edits@.len(),
                    |i: int| edit_xml(self.edits@[i], ctx.spec_deeper()),
                ),
                views(lines@) == seq![self.spec_open_tag(*ctx)] + tests + edits.take(j as int),
            decreases self.edits@.len() - j,
        {
            assert(valued_ok(inner_ctx, self.edits@[j as int].value));
            push_part(&mut lines, self.edits[j].render(&inner_ctx));
            assert(edits.take(j + 1) =~= edits.take(j as int).push(edits[j as int]));
            j = j + 1;
        }
        assert(edits.take(self.edits@.len() as int) =~= edits);
        push_part(&mut lines, cat2(indent.as_str(), "</match>"));
        assert(views(lines@) =~= self.spec_lines(*ctx));
        join_strings(&lines, "\n")
    }

    fn validate(&self) -> (r: Result<(), String>) {
        Ok(())
    }
}

} // verus!
