//! `set` statements.
use vstd::prelude::*;
use crate::base::{Config, RenderContext};
use crate::fish::util::{quote_fish, quote_fish_value};
use crate::text::{
    join, join_strings, opt_as_str, opt_view, owned, owned_all, push_part, push_str_part, views,
    if_seq,
};

verus! {

/// Scope flags for a fish `set` variable.
#[derive(Debug, Clone, Copy, PartialEq, Eq, Structural)]
pub enum VarScope {
    /// `-l` – local to the current block or function.
    Local,
    /// `-g` – global across the shell session.
    Global,
    /// `-U` – universal; persists across sessions in `fish_variables`.
    Universal,
}

impl VarScope {
    pub open spec fn spec_flag(self) -> Seq<char> {
        match self {
            VarScope::Local => "-l"@,
            VarScope::Global => "-g"@,
            VarScope::Universal => "-U"@,
        }
    }

    pub fn flag(self) -> (r: &'static str)
        ensures
            r@ == self.spec_flag(),
    {
        match self {
            VarScope::Local => "-l",
            VarScope::Global => "-g",
            VarScope::Universal => "-U",
        }
    }
}

/// The fish renderings of `values`, in order.
pub open spec fn quote_all(values: Seq<Seq<char>>) -> Seq<Seq<char>> {
    Seq::new(values.len(), |i: int| quote_fish(values[i]))
}

/// Quotes every value of `values`.
pub fn quote_all_values(values: &Vec<String>) -> (r: Vec<String>)
    ensures
        views(r@) == quote_all(views(values@)),
{
    let mut r: Vec<String> = Vec::new();
    let mut i: usize = 0;
    while i < values.len()
        invariant
            i <= values@.len(),
            views(r@) == quote_all(views(values@).take(i as int)),
        decreases values@.len() - i,
    {
        push_part(&mut r, quote_fish_value(values[i].as_str()));
        assert(quote_all(views(values@).take(i + 1)) =~= quote_all(views(values@).take(i as int)).push(
            quote_fish(values@[i as int]@),
        ));
        i = i + 1;
    }
    assert(views(values@).take(values@.len() as int) =~= views(values@));
    r
}

/// A `set` statement for a fish variable (one or more values).
#[derive(Debug, Clone)]
pub struct FishVariable {
    pub name: String,
    pub values: Vec<String>,
    pub scope: Option<VarScope>,
    /// `-x` – export to child processes.
    pub export: bool,
    /// `--path` – treat value as a colon-separated path list.
    pub path_list: bool,
    /// `--erase` – remove the variable.
    pub erase: bool,
    pub doc: Option<String>,
}

impl FishVariable {
    pub fn new(name: &str, value: &str) -> (r: Self)
        ensures
            r.name@ == name@,
            views(r.values@) == seq![value@],
            r.scope is None,
            !r.export && !r.path_list && !r.erase,
            r.doc is None,
    {
        let mut values: Vec<String> = Vec::new();
        push_str_part(&mut values, value);
        FishVariable {
            name: owned(name),
            values,
            scope: None,
            export: false,
            path_list: false,
            erase: false,
            doc: None,
        }
    }

    pub fn with_values(name: &str, values: &[&str]) -> (r: Self)
        ensures
            r.name@ == name@,
            views(r.values@) == values@.map_values(|s: &str| s@),
            r.scope is None,
            !r.export && !r.path_list && !r.erase,
            r.doc is None,
    {
        FishVariable {
            name: owned(name),
            values: owned_all(values),
            scope: None,
            export: false,
            path_list: false,
            erase: false,
            doc: None,
        }
    }

    /// Local variable (`set -l`).
    pub fn local(name: &str, value: &str) -> (r: Self)
        ensures
            r.name@ == name@,
            views(r.values@) == seq![value@],
            r.scope == Some(VarScope::Local),
            !r.export && !r.path_list && !r.erase,
            r.doc is None,
    {
        Self::new(name, value).scope(VarScope::Local)
    }

    /// Global variable (`set -g`).
    pub fn global(name: &str, value: &str) -> (r: Self)
        ensures
            r.name@ == name@,
            views(r.values@) == seq![value@],
            r.scope == Some(VarScope::Global),
            !r.export && !r.path_list && !r.erase,
            r.doc is None,
    {
        Self::new(name, value).scope(VarScope::Global)
    }

    /// Universal variable (`set -U`), persists across sessions.
    pub fn universal(name: &str, value: &str) -> (r: Self)
        ensures
            r.name@ == name@,
            views(r.values@) == seq![value@],
            r.scope == Some(VarScope::Universal),
            !r.export && !r.path_list && !r.erase,
            r.doc is None,
    {
        Self::new(name, value).scope(VarScope::Universal)
    }

    /// Exported environment variable (`set -gx`).
    pub fn env(name: &str, value: &str) -> (r: Self)
        ensures
            r.name@ == name@,
            views(r.values@) == seq![value@],
            r.scope == Some(VarScope::Global),
            r.export && !r.path_list && !r.erase,
            r.doc is None,
    {
        Self::new(name, value).scope(VarScope::Global).export(true)
    }

    pub fn scope(self, s: VarScope) -> (r: Self)
        ensures
            r == (FishVariable { scope: Some(s), ..self }),
    {
        FishVariable { scope: Some(s), ..self }
    }

    pub fn export(self, v: bool) -> (r: Self)
        ensures
            r == (FishVariable { export: v, ..self }),
    {
        FishVariable { export: v, ..self }
    }

    pub fn path_list(self, v: bool) -> (r: Self)
        ensures
            r == (FishVariable { path_list: v, ..self }),
    {
        FishVariable { path_list: v, ..self }
    }

    /// Mark the variable for erasure (`set --erase`).
    pub fn erase(self) -> (r: Self)
        ensures
            r == (FishVariable { erase: true, ..self }),
    {
        FishVariable { erase: true, ..self }
    }

    pub fn doc(self, d: &str) -> (r: Self)
        ensures
            opt_view(r.doc) == Some(d@),
            r == (FishVariable { doc: r.doc, ..self }),
    {
        FishVariable { doc: Some(owned(d)), ..self }
    }

    /// The option flags of a non-erasing `set`.
    pub open spec fn spec_flags(self) -> Seq<Seq<char>> {
        (match self.scope {
            Some(s) => seq![s.spec_flag()],
            None => Seq::empty(),
        }) + if_seq(self.export, "-x"@) + if_seq(self.path_list, "--path"@)
    }
}

impl Config for FishVariable {
    open spec fn spec_render(&self, ctx: RenderContext) -> Seq<char> {
        if self.erase {
            ctx.spec_indent() + "set"@ + (match self.scope {
                Some(s) => " "@ + s.spec_flag(),
                None => Seq::empty(),
            }) + " --erase "@ + self.name@
        } else {
            ctx.spec_indent() + "set"@ + (if self.spec_flags().len() == 0 {
                Seq::empty()
            } else {
                " "@ + join(self.spec_flags(), " "@)
            }) + " "@ + self.name@ + " "@ + join(quote_all(views(self.values@)), " "@)
        }
    }

    open spec fn spec_doc(&self) -> Option<Seq<char>> {
        opt_view(self.doc)
    }

    fn render(&self, ctx: &RenderContext) -> (r: String) {
        let mut r = ctx.indent();
        if self.erase {
            r.append("set");
            match self.scope {
                Some(s) => {
                    r.append(" ");
                    r.append(s.flag());
                },
                None => {},
            }
            r.append(" --erase ");
            r.append(self.name.as_str());
            return r;
        }
        let mut flags: Vec<String> = Vec::new();
        match self.scope {
            Some(s) => {
                push_str_part(&mut flags, s.flag());
            },
            None => {},
        }
        if self.export {
            push_str_part(&mut flags, "-x");
        }
        if self.path_list {
            push_str_part(&mut flags, "--path");
        }
        assert(views(flags@) =~= self.spec_flags());
        r.append("set");
        if flags.len() > 0 {
            r.append(" ");
            let f = join_strings(&flags, " ");
            r.append(f.as_str());
        }
        r.append(" ");
        r.append(self.name.as_str());
        r.append(" ");
        let quoted = quote_all_values(&self.values);
        let v = join_strings(&quoted, " ");
        r.append(v.as_str());
        r
    }

    fn doc_comment(&self) -> (r: Option<&str>) {
        opt_as_str(&self.doc)
    }

    fn validate(&self) -> (r: Result<(), String>) {
        Ok(())
    }
}

} // verus!
