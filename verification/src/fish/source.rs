//! `source` statements, Fisher plugins and raw lines.
use vstd::prelude::*;
use crate::base::{Config, RenderContext};
use crate::fish::util::{quote_fish, quote_fish_value};
use crate::text::{opt_as_str, opt_view, owned};

verus! {

/// A `source path` statement.
#[derive(Debug, Clone)]
pub struct FishSource {
    pub path: String,
}

impl FishSource {
    pub fn new(path: &str) -> (r: Self)
        ensures
            r.path@ == path@,
    {
        FishSource { path: owned(path) }
    }
}

impl Config for FishSource {
    open spec fn spec_render(&self, ctx: RenderContext) -> Seq<char> {
        ctx.spec_indent() + "source "@ + quote_fish(self.path@)
    }

    fn render(&self, ctx: &RenderContext) -> (r: String) {
        let mut r = ctx.indent();
        r.append("source ");
        let q = quote_fish_value(self.path.as_str());
        r.append(q.as_str());
        r
    }

    fn doc_comment(&self) -> (r: Option<&str>) {
        None
    }

    fn validate(&self) -> (r: Result<(), String>) {
        Ok(())
    }
}

/// A Fisher plugin installation entry (`fisher install owner/repo`).
#[derive(Debug, Clone)]
pub struct FishPlugin {
    pub repo: String,
    pub doc: Option<String>,
}

impl FishPlugin {
    pub fn new(repo: &str) -> (r: Self)
        ensures
            r.repo@ == repo@,
            r.doc is None,
    {
        FishPlugin { repo: owned(repo), doc: None }
    }

    pub fn doc(self, d: &str) -> (r: Self)
        ensures
            opt_view(r.doc) == Some(d@),
            r.repo == self.repo,
    {
        FishPlugin { doc: Some(owned(d)), ..self }
    }
}

impl Config for FishPlugin {
    open spec fn spec_render(&self, ctx: RenderContext) -> Seq<char> {
        ctx.spec_indent() + "fisher install "@ + self.repo@
    }

    open spec fn spec_doc(&self) -> Option<Seq<char>> {
        opt_view(self.doc)
    }

    fn render(&self, ctx: &RenderContext) -> (r: String) {
        let mut r = ctx.indent();
        r.append("fisher install ");
        r.append(self.repo.as_str());
        r
    }

    fn doc_comment(&self) -> (r: Option<&str>) {
        opt_as_str(&self.doc)
    }

    fn validate(&self) -> (r: Result<(), String>) {
        Ok(())
    }
}

/// An escape hatch: emit an arbitrary fish shell line verbatim.
#[derive(Debug, Clone)]
pub struct FishRawLine {
    pub code: String,
    pub doc: Option<String>,
}

impl FishRawLine {
    pub fn new(code: &str) -> (r: Self)
        ensures
            r.code@ == code@,
            r.doc is None,
    {
        FishRawLine { code: owned(code), doc: None }
    }

    pub fn doc(self, d: &str) -> (r: Self)
        ensures
            opt_view(r.doc) == Some(d@),
            r.code == self.code,
    {
        FishRawLine { doc: Some(owned(d)), ..self }
    }
}

impl Config for FishRawLine {
    open spec fn spec_render(&self, ctx: RenderContext) -> Seq<char> {
        ctx.spec_indent() + self.code@
    }

    open spec fn spec_doc(&self) -> Option<Seq<char>> {
        opt_view(self.doc)
    }

    fn render(&self, ctx: &RenderContext) -> (r: String) {
        let mut r = ctx.indent();
        r.append(self.code.as_str());
        r
    }

    fn doc_comment(&self) -> (r: Option<&str>) {
        opt_as_str(&self.doc)
    }

    fn validate(&self) -> (r: Result<(), String>) {
        Ok(())
    }
}

} // verus!
