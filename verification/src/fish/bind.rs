//! `bind` key bindings.
use vstd::prelude::*;
use crate::base::{Config, RenderContext};
use crate::text::{
    cat2, if_seq, join, join_strings, opt_as_str, opt_view, owned, push_part, push_str_part, views,
};

verus! {

/// The bind mode for a fish key binding.
#[derive(Debug, Clone)]
pub enum BindMode {
    Default,
    Insert,
    Visual,
    Custom(String),
}

impl BindMode {
    pub open spec fn spec_str(self) -> Seq<char> {
        match self {
            BindMode::Default => "default"@,
            BindMode::Insert => "insert"@,
            BindMode::Visual => "visual"@,
            BindMode::Custom(s) => s@,
        }
    }

    pub fn as_str(&self) -> (r: &str)
        ensures
            r@ == self.spec_str(),
    {
        match self {
            BindMode::Default => "default",
            BindMode::Insert => "insert",
            BindMode::Visual => "visual",
            BindMode::Custom(s) => s.as_str(),
        }
    }
}

/// A `bind` key-binding statement.
#[derive(Debug, Clone)]
pub struct FishBind {
    pub key: String,
    pub command: String,
    pub mode: Option<BindMode>,
    /// Transition to a different mode after the binding fires.
    pub sets_mode: Option<String>,
    pub silent: bool,
    pub doc: Option<String>,
}

impl FishBind {
    pub fn new(key: &str, command: &str) -> (r: Self)
        ensures
            r.key@ == key@,
            r.command@ == command@,
            r.mode is None,
            r.sets_mode is None,
            !r.silent,
            r.doc is None,
    {
        FishBind {
            key: owned(key),
            command: owned(command),
            mode: None,
            sets_mode: None,
            silent: false,
            doc: None,
        }
    }

    pub fn mode(self, m: BindMode) -> (r: Self)
        ensures
            r == (FishBind { mode: Some(m), ..self }),
    {
        FishBind { mode: Some(m), ..self }
    }

    pub fn sets_mode(self, m: &str) -> (r: Self)
        ensures
            opt_view(r.sets_mode) == Some(m@),
            r == (FishBind { sets_mode: r.sets_mode, ..self }),
    {
        FishBind { sets_mode: Some(owned(m)), ..self }
    }

    pub fn silent(self) -> (r: Self)
        ensures
            r == (FishBind { silent: true, ..self }),
    {
        FishBind { silent: true, ..self }
    }

    pub fn doc(self, d: &str) -> (r: Self)
        ensures
            opt_view(r.doc) == Some(d@),
            r == (FishBind { doc: r.doc, ..self }),
    {
        FishBind { doc: Some(owned(d)), ..self }
    }

    /// The words of the `bind` command.
    pub open spec fn spec_parts(self) -> Seq<Seq<char>> {
        seq!["bind"@] + (match self.mode {
            Some(m) => seq!["--mode "@ + m.spec_str()],
            None => Seq::empty(),
        }) + (match self.sets_mode {
            Some(m) => seq!["--sets-mode "@ + m@],
            None => Seq::empty(),
        }) + if_seq(self.silent, "--silent"@) + seq![self.key@, self.command@]
    }
}

impl Config for FishBind {
    open spec fn spec_render(&self, ctx: RenderContext) -> Seq<char> {
        ctx.spec_indent() + join(self.spec_parts(), " "@)
    }

    open spec fn spec_doc(&self) -> Option<Seq<char>> {
        opt_view(self.doc)
    }

    fn render(&self, ctx: &RenderContext) -> (r: String) {
        let mut parts: Vec<String> = Vec::new();
        push_str_part(&mut parts, "bind");
        match &self.mode {
            Some(m) => {
                push_part(&mut parts, cat2("--mode ", m.as_str()));
            },
            None => {},
        }
        match &self.sets_mode {
            Some(m) => {
                push_part(&mut parts, cat2("--sets-mode ", m.as_str()));
            },
            None => {},
        }
        if self.silent {
            push_str_part(&mut parts, "--silent");
        }
        push_str_part(&mut parts, self.key.as_str());
        push_str_part(&mut parts, self.command.as_str());
        assert(views(parts@) =~= self.spec_parts());
        let mut r = ctx.indent();
        let j = join_strings(&parts, " ");
        r.append(j.as_str());
        r
    }

    fn doc_comment(&self) -> (r: Option<&str>) {
        opt_as_str(&self.doc)
    }

    fn validate(&self) -> (r: Result<(), String>) {
        Ok(())
    }
}

} // verus!
