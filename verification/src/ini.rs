//! INI-format rendering infrastructure.
//!
//! This module provides the [`IniConfig`] trait and the [`IniSection`] /
//! [`IniFile`] helpers that back the GTK configuration backend.
use vstd::prelude::*;
use crate::text::{cat3, join, join_strings, owned, push_part, result_view, views};

verus! {

/// Rendering context for INI-format configuration files.
#[derive(Debug, Clone, Copy)]
pub struct IniRenderContext {
    /// When `true`, optional comment lines are emitted above sections.
    pub emit_comments: bool,
}

impl Default for IniRenderContext {
    fn default() -> (r: Self)
        ensures
            r == (IniRenderContext { emit_comments: false }),
    {
        IniRenderContext { emit_comments: false }
    }
}

/// Trait for types that can render themselves to an INI-format string.
pub trait IniConfig {
    /// The text this node renders to in `ctx`.
    spec fn spec_render(&self, ctx: IniRenderContext) -> Seq<char>;

    /// The outcome of validating this node.
    open spec fn spec_validate(&self) -> Result<(), Seq<char>> {
        Ok(())
    }

    /// Render this node into an INI string using the provided context.
    fn render(&self, ctx: &IniRenderContext) -> (r: String)
        ensures
            r@ == self.spec_render(*ctx),
    ;

    /// Convenience: render with a default context.
    fn generate(&self) -> (r: String)
        ensures
            r@ == self.spec_render(IniRenderContext { emit_comments: false }),
    {
        self.render(&IniRenderContext::default())
    }

    /// Validation step run before rendering.
    fn validate(&self) -> (r: Result<(), String>)
        ensures
            result_view(r) == self.spec_validate(),
    ;
}

/// A single key = value pair inside an INI section.
#[derive(Debug, Clone)]
pub struct IniEntry {
    pub key: String,
    pub value: String,
}

/// A named `[section]` with its entries.
#[derive(Debug, Clone)]
pub struct IniSection {
    pub name: String,
    pub entries: Vec<IniEntry>,
}

/// The lines of a section: the header, then one `key=value` line per entry.
pub open spec fn section_lines(name: Seq<char>, entries: Seq<IniEntry>) -> Seq<Seq<char>> {
    seq!["["@ + name + "]"@] + Seq::new(
        entries.len(),
        |i: int| entries[i].key@ + "="@ + entries[i].value@,
    )
}

impl IniSection {
    pub fn new(name: &str) -> (r: Self)
        ensures
            r.name@ == name@,
            r.entries@.len() == 0,
    {
        IniSection { name: owned(name), entries: Vec::new() }
    }

    /// Append a `key=value` entry.
    pub fn set(self, key: &str, value: &str) -> (r: Self)
        ensures
            r.name == self.name,
            r.entries@.len() == self.entries@.len() + 1,
            r.entries@.drop_last() == self.entries@,
            r.entries@.last().key@ == key@,
            r.entries@.last().value@ == value@,
    {
        let mut s = self;
        s.entries.push(IniEntry { key: owned(key), value: owned(value) });
        assert(s.entries@.drop_last() =~= self.entries@);
        s
    }
}

impl IniConfig for IniSection {
    open spec fn spec_render(&self, ctx: IniRenderContext) -> Seq<char> {
        join(section_lines(self.name@, self.entries@), "\n"@)
    }

    fn render(&self, ctx: &IniRenderContext) -> (r: String) {
        let mut lines: Vec<String> = Vec::new();
        push_part(&mut lines, cat3("[", self.name.as_str(), "]"));
        let mut i: usize = 0;
        while i < self.entries.len()
            invariant
                i <= self.entries@.len(),
                views(lines@) == section_lines(self.name@, self.entries@.take(i as int)),
            decreases self.entries@.len() - i,
        {
            let e = &self.entries[i];
            push_part(&mut lines, cat3(e.key.as_str(), "=", e.value.as_str()));
            assert(section_lines(self.name@, self.entries@.take(i + 1)) =~= section_lines(
                self.name@,
                self.entries@.take(i as int),
            ).push(self.entries@[i as int].key@ + "="@ + self.entries@[i as int].value@));
            i = i + 1;
        }
        assert(self.entries@.take(self.entries@.len() as int) =~= self.entries@);
        join_strings(&lines, "\n")
    }

    fn validate(&self) -> (r: Result<(), String>) {
        Ok(())
    }
}

/// A whole INI file: sections separated by blank lines.
#[derive(Debug, Clone)]
pub struct IniFile {
    pub sections: Vec<IniSection>,
}

impl Default for IniFile {
    fn default() -> (r: Self)
        ensures
            r.sections@.len() == 0,
    {
        IniFile { sections: Vec::new() }
    }
}

impl IniFile {
    pub fn new() -> (r: Self)
        ensures
            r.sections@.len() == 0,
    {
        Self::default()
    }

    pub fn section(self, s: IniSection) -> (r: Self)
        ensures
            r.sections@ == self.sections@.push(s),
    {
        let mut f = self;
        f.sections.push(s);
        f
    }
}

impl IniConfig for IniFile {
    open spec fn spec_render(&self, ctx: IniRenderContext) -> Seq<char> {
        join(
            Seq::new(self.sections@.len(), |i: int| self.sections@[i].spec_render(ctx)),
            "\n\n"@,
        )
    }

    fn render(&self, ctx: &IniRenderContext) -> (r: String) {
        let mut parts: Vec<String> = Vec::new();
        let mut i: usize = 0;
        while i < self.sections.len()
            invariant
                i <= self.sections@.len(),
                views(parts@) == Seq::new(i as nat, |k: int| self.sections@[k].spec_render(*ctx)),
            decreases self.sections@.len() - i,
        {
            push_part(&mut parts, self.sections[i].render(ctx));
            assert(Seq::new((i + 1) as nat, |k: int| self.sections@[k].spec_render(*ctx)) =~= Seq::new(
                i as nat,
                |k: int| self.sections@[k].spec_render(*ctx),
            ).push(self.sections@[i as int].spec_render(*ctx)));
            i = i + 1;
        }
        join_strings(&parts, "\n\n")
    }

    fn validate(&self) -> (r: Result<(), String>) {
        Ok(())
    }
}

} // verus!
