//! `alias` statements.
use vstd::prelude::*;
use crate::base::{Config, RenderContext};
use crate::fish::util::{quote_fish, quote_fish_value};
use crate::text::{opt_as_str, opt_view, owned};

verus! {

/// An `alias name 'expansion'` statement.
#[derive(Debug, Clone)]
pub struct FishAlias {
    pub name: String,
    pub command: String,
    pub doc: Option<String>,
}

impl FishAlias {
    pub fn new(name: &str, command: &str) -> (r: Self)
        ensures
            r.name@ == name@,
            r.command@ == command@,
            r.doc is None,
    {
        FishAlias { name: owned(name), command: owned(command), doc: None }
    }

    pub fn doc(self, d: &str) -> (r: Self)
        ensures
            opt_view(r.doc) == Some(d@),
            r == (FishAlias { doc: r.doc, ..self }),
    {
        FishAlias { doc: Some(owned(d)), ..self }
    }
}

impl Config for FishAlias {
    open spec fn spec_render(&self, ctx: RenderContext) -> Seq<char> {
        ctx.spec_indent() + "alias "@ + self.name@ + " "@ + quote_fish(self.command@)
    }

    open spec fn spec_doc(&self) -> Option<Seq<char>> {
        opt_view(self.doc)
    }

    fn render(&self, ctx: &RenderContext) -> (r: String) {
        let mut r = ctx.indent();
        r.append("alias ");
        r.append(self.name.as_str());
        r.append(" ");
        let q = quote_fish_value(self.command.as_str());
        r.append(q.as_str());
        r
    }

    fn doc_comment(&self) -> (r: Option<&str>) {
        opt_as_str(&self.doc)
    }

    fn validate(&self) -> (r: Result<(), String>) {
        Ok(())
    }
}

} // verus!
