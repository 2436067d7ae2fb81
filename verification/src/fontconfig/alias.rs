//! The `<alias>` element: font family substitution.
use vstd::prelude::*;
use crate::fontconfig::context::{FontconfigConfig, FontconfigRenderContext};
use crate::fontconfig::value::{xml_escape, xml_escaped};
use crate::text::{
    cat2, cat3, cat4, is_empty_str, join, join_strings, owned, owned_all, push_part, views,
};

verus! {

/// A fontconfig `<alias>`: families to try before (`prefer`), after
/// (`accept`) and instead of (`default`) the source family.
pub struct Alias {
    /// The source font family name.
    pub family: String,
    /// Families to try before the source family.
    pub prefer: Vec<String>,
    /// Families to try after the source family.
    pub accept: Vec<String>,
    /// Families to use as the final fallback.
    pub default: Vec<String>,
}

/// `<family>name</family>` with the name escaped.
pub open spec fn family_element(name: Seq<char>) -> Seq<char> {
    "<family>"@ + xml_escaped(name) + "</family>"@
}

/// A preference list: `<tag>`, one family element per line, `</tag>`.
pub open spec fn family_list(tag: Seq<char>, families: Seq<Seq<char>>, indent: Seq<char>, inner: Seq<
    char,
>) -> Seq<char> {
    join(
        seq![indent + "<"@ + tag + ">"@] + Seq::new(
            families.len(),
            |i: int| inner + family_element(families[i]),
        ) + seq![indent + "</"@ + tag + ">"@],
        "\n"@,
    )
}

/// A preference list as one line, or nothing when the list is empty.
pub open spec fn family_list_lines(
    tag: Seq<char>,
    families: Seq<Seq<char>>,
    indent: Seq<char>,
    inner: Seq<char>,
) -> Seq<Seq<char>> {
    if families.len() == 0 {
        Seq::empty()
    } else {
        seq![family_list(tag, families, indent, inner)]
    }
}

fn render_family_list(tag: &str, families: &Vec<String>, indent: &str, inner: &str) -> (r: String)
    ensures
        r@ == family_list(tag@, views(families@), indent@, inner@),
{
    let mut lines: Vec<String> = Vec::new();
    push_part(&mut lines, cat4(indent, "<", tag, ">"));
    let ghost items = Seq::new(
        views(families@).len(),
        |i: int| inner@ + family_element(views(families@)[i]),
    );
    let mut i: usize = 0;
    while i < families.len()
        invariant
            i <= families@.len(),
            items == Seq::new(
                views(families@).len(),
                |i: int| inner@ + family_element(views(families@)[i]),
            ),
            views(lines@) == seq![indent@ + "<"@ + tag@ + ">"@] + items.take(i as int),
        decreases families@.len() - i,
    {
        let e = xml_escape(families[i].as_str());
        let el = cat3("<family>", e.as_str(), "</family>");
        push_part(&mut lines, cat2(inner, el.as_str()));
        assert(items.take(i + 1) =~= items.take(i as int).push(items[i as int]));
        i = i + 1;
    }
    assert(items.take(families@.len() as int) =~= items);
    push_part(&mut lines, cat4(indent, "</", tag, ">"));
    assert(views(lines@) =~= seq![indent@ + "<"@ + tag@ + ">"@] + items + seq![
        indent@ + "</"@ + tag@ + ">"@,
    ]);
    join_strings(&lines, "\n")
}

impl Alias {
    /// A new alias for `family` with no preference lists yet.
    pub fn new(family: &str) -> (r: Self)
        ensures
            r.family@ == family@,
            r.prefer@.len() == 0,
            r.accept@.len() == 0,
            r.default@.len() == 0,
    {
        Alias { family: owned(family), prefer: Vec::new(), accept: Vec::new(), default: Vec::new() }
    }

    /// Set the `<prefer>` list.
    pub fn prefer(self, families: &[&str]) -> (r: Self)
        ensures
            views(r.prefer@) == families@.map_values(|s: &str| s@),
            r.family == self.family,
            r.accept == self.accept,
            r.default == self.default,
    {
        Alias { prefer: owned_all(families), ..self }
    }

    /// Set the `<accept>` list.
    pub fn accept(self, families: &[&str]) -> (r: Self)
        ensures
            views(r.accept@) == families@.map_values(|s: &str| s@),
            r.family == self.family,
            r.prefer == self.prefer,
            r.default == self.default,
    {
        Alias { accept: owned_all(families), ..self }
    }

    /// Set the `<default>` list.
    pub fn default_families(self, families: &[&str]) -> (r: Self)
        ensures
            views(r.default@) == families@.map_values(|s: &str| s@),
            r.family == self.family,
            r.prefer == self.prefer,
            r.accept == self.accept,
    {
        Alias { default: owned_all(families), ..self }
    }

    /// Append one family to the `<prefer>` list.
    pub fn add_prefer(&mut self, family: &str) -> (r: &mut Self)
        ensures
            views(r.prefer@) == views(old(self).prefer@).push(family@),
            r.family == old(self).family,
            r.accept == old(self).accept,
            r.default == old(self).default,
            *final(self) == *final(r),
    {
        push_part(&mut self.prefer, owned(family));
        self
    }

    /// Append one family to the `<accept>` list.
    pub fn add_accept(&mut self, family: &str) -> (r: &mut Self)
        ensures
            views(r.accept@) == views(old(self).accept@).push(family@),
            r.family == old(self).family,
            r.prefer == old(self).prefer,
            r.default == old(self).default,
            *final(self) == *final(r),
    {
        push_part(&mut self.accept, owned(family));
        self
    }

    /// Append one family to the `<default>` list.
    pub fn add_default(&mut self, family: &str) -> (r: &mut Self)
        ensures
            views(r.default@) == views(old(self).default@).push(family@),
            r.family == old(self).family,
            r.prefer == old(self).prefer,
            r.accept == old(self).accept,
            *final(self) == *final(r),
    {
        push_part(&mut self.default, owned(family));
        self
    }

    /// The lines of the element in `ctx`, before joining.
    pub open spec fn spec_lines(&self, ctx: FontconfigRenderContext) -> Seq<Seq<char>> {
        let indent = ctx.spec_indent();
        let inner = ctx.spec_deeper().spec_indent();
        let inner2 = ctx.spec_deeper().spec_deeper().spec_indent();
        seq![indent + "<alias>"@, inner + family_element(self.family@)] + family_list_lines(
            "prefer"@,
            views(self.prefer@),
            inner,
            inner2,
        ) + family_list_lines("accept"@, views(self.accept@), inner, inner2) + family_list_lines(
            "default"@,
            views(self.default@),
            inner,
            inner2,
        ) + seq![indent + "</alias>"@]
    }
}

impl FontconfigConfig for Alias {
    open spec fn spec_render(&self, ctx: FontconfigRenderContext) -> Seq<char> {
        join(self.spec_lines(ctx), "\n"@)
    }

    open spec fn render_ok(&self, ctx: FontconfigRenderContext) -> bool {
        ctx.nest_ok() && ctx.spec_deeper().nest_ok()
    }

    open spec fn spec_validate(&self) -> Result<(), Seq<char>> {
        if self.family@.len() == 0 {
            Err("Alias family name must not be empty"@)
        } else {
            Ok(())
        }
    }

    fn render(&self, ctx: &FontconfigRenderContext) -> (r: String) {
        let indent = ctx.indent();
        let inner_ctx = ctx.deeper();
        let inner = inner_ctx.indent();
        let inner2 = inner_ctx.deeper().indent();
        let mut lines: Vec<String> = Vec::new();
        push_part(&mut lines, cat2(indent.as_str(), "<alias>"));
        let e = xml_escape(self.family.as_str());
        let fam = cat3("<family>", e.as_str(), "</family>");
        push_part(&mut lines, cat2(inner.as_str(), fam.as_str()));
        if self.prefer.len() > 0 {
            push_part(
                &mut lines,
                render_family_list("prefer", &self.prefer, inner.as_str(), inner2.as_str()),
            );
        }
        if self.accept.len() > 0 {
            push_part(
                &mut lines,
                render_family_list("accept", &self.accept, inner.as_str(), inner2.as_str()),
            );
        }
        if self.default.len() > 0 {
            push_part(
                &mut lines,
                render_family_list("default", &self.default, inner.as_str(), inner2.as_str()),
            );
        }
        push_part(&mut lines, cat2(indent.as_str(), "</alias>"));
        assert(views(lines@) =~= self.spec_lines(*ctx));
        join_strings(&lines, "\n")
    }

    fn validate(&self) -> (r: Result<(), String>) {
        if is_empty_str(self.family.as_str()) {
            return Err(owned("Alias family name must not be empty"));
        }
        Ok(())
    }
}

} // verus!
