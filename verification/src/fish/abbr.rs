//! `abbr --add` abbreviations.
use vstd::prelude::*;
use crate::base::{Config, RenderContext};
use crate::fish::util::{quote_fish, quote_fish_value};
use crate::text::{
    cat2, if_seq, join, join_strings, opt_as_str, opt_view, owned, push_part, push_str_part, views,
};

verus! {

/// Where in the command line an abbreviation expands.
#[derive(Debug, Clone, Copy, PartialEq, Eq, Structural)]
pub enum AbbrPosition {
    /// Only when typed as a command (the default).
    Command,
    /// Anywhere in the command line.
    Anywhere,
}

/// An `abbr --add` abbreviation.
#[derive(Debug, Clone)]
pub struct FishAbbr {
    pub name: String,
    pub expansion: Option<String>,
    pub position: AbbrPosition,
    pub regex: Option<String>,
    /// Name of a fish function that returns the expansion.
    pub function: Option<String>,
    /// Place the cursor at `%` in the expansion.
    pub set_cursor: bool,
    pub doc: Option<String>,
}

impl FishAbbr {
    pub fn new(name: &str, expansion: &str) -> (r: Self)
        ensures
            r.name@ == name@,
            opt_view(r.expansion) == Some(expansion@),
            r.position == AbbrPosition::Command,
            r.regex is None,
            r.function is None,
            !r.set_cursor,
            r.doc is None,
    {
        FishAbbr {
            name: owned(name),
            expansion: Some(owned(expansion)),
            position: AbbrPosition::Command,
            regex: None,
            function: None,
            set_cursor: false,
            doc: None,
        }
    }

    /// Abbreviation whose expansion is computed by a function.
    pub fn with_function(name: &str, function: &str) -> (r: Self)
        ensures
            r.name@ == name@,
            r.expansion is None,
            r.position == AbbrPosition::Command,
            r.regex is None,
            opt_view(r.function) == Some(function@),
            !r.set_cursor,
            r.doc is None,
    {
        FishAbbr {
            name: owned(name),
            expansion: None,
            position: AbbrPosition::Command,
            regex: None,
            function: Some(owned(function)),
            set_cursor: false,
            doc: None,
        }
    }

    pub fn position(self, p: AbbrPosition) -> (r: Self)
        ensures
            r == (FishAbbr { position: p, ..self }),
    {
        FishAbbr { position: p, ..self }
    }

    /// Expand the abbreviation anywhere in the command line.
    pub fn anywhere(self) -> (r: Self)
        ensures
            r == (FishAbbr { position: AbbrPosition::Anywhere, ..self }),
    {
        self.position(AbbrPosition::Anywhere)
    }

    pub fn regex(self, r: &str) -> (res: Self)
        ensures
            opt_view(res.regex) == Some(r@),
            res == (FishAbbr { regex: res.regex, ..self }),
    {
        FishAbbr { regex: Some(owned(r)), ..self }
    }

    /// Place the cursor at `%` in the expansion string.
    pub fn set_cursor(self) -> (r: Self)
        ensures
            r == (FishAbbr { set_cursor: true, ..self }),
    {
        FishAbbr { set_cursor: true, ..self }
    }

    pub fn doc(self, d: &str) -> (r: Self)
        ensures
            opt_view(r.doc) == Some(d@),
            r == (FishAbbr { doc: r.doc, ..self }),
    {
        FishAbbr { doc: Some(owned(d)), ..self }
    }

    /// The words of the `abbr` command.
    pub open spec fn spec_parts(self) -> Seq<Seq<char>> {
        seq!["abbr"@, "--add"@] + if_seq(self.position == AbbrPosition::Anywhere, "--position anywhere"@)
            + (match self.regex {
            Some(r) => seq!["--regex "@ + quote_fish(r@)],
            None => Seq::empty(),
        }) + (match self.function {
            Some(f) => seq!["--function "@ + f@],
            None => Seq::empty(),
        }) + if_seq(self.set_cursor, "--set-cursor"@) + seq![quote_fish(self.name@)] + (
        match self.expansion {
            Some(e) => seq![quote_fish(e@)],
            None => Seq::empty(),
        })
    }
}

impl Config for FishAbbr {
    open spec fn spec_render(&self, ctx: RenderContext) -> Seq<char> {
        ctx.spec_indent() + join(self.spec_parts(), " "@)
    }

    open spec fn spec_doc(&self) -> Option<Seq<char>> {
        opt_view(self.doc)
    }

    fn render(&self, ctx: &RenderContext) -> (r: String) {
        let mut parts: Vec<String> = Vec::new();
        push_str_part(&mut parts, "abbr");
        push_str_part(&mut parts, "--add");
        if matches!(self.position, AbbrPosition::Anywhere) {
            push_str_part(&mut parts, "--position anywhere");
        }
        match &self.regex {
            Some(r) => {
                let q = quote_fish_value(r.as_str());
                push_part(&mut parts, cat2("--regex ", q.as_str()));
            },
            None => {},
        }
        match &self.function {
            Some(f) => {
                push_part(&mut parts, cat2("--function ", f.as_str()));
            },
            None => {},
        }
        if self.set_cursor {
            push_str_part(&mut parts, "--set-cursor");
        }
        push_part(&mut parts, quote_fish_value(self.name.as_str()));
        match &self.expansion {
            Some(e) => {
                push_part(&mut parts, quote_fish_value(e.as_str()));
            },
            None => {},
        }
        assert(views(parts@) =~= self.spec_parts());
        let mut r = ctx.indent();
        let j = join_strings(&parts, " ");
        r.append(j.as_str());
        r
    }

    fn doc_comment(&self) -> (r: Option<&str>) {
        opt_as_str(&self.doc)
    }

    fn validate(&self) -> (r: Result<(), String>) {
        Ok(())
    }
}

} // verus!
