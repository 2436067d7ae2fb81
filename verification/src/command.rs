//! Neovim user commands (`vim.api.nvim_create_user_command`).
use vstd::prelude::*;
use crate::base::{Config, RenderContext};
use crate::text::{
    bool_str, bool_text, cat2, cat3, join, join_strings, opt_as_str, opt_view, owned, push_part,
    views,
};

verus! {

/// Completion provider for a user command.
#[derive(Debug, Clone)]
pub enum CmdCompletion {
    File,
    Buffer,
    Command,
    Help,
    Custom(String),
}

impl CmdCompletion {
    pub open spec fn spec_lua(self) -> Seq<char> {
        match self {
            CmdCompletion::File => "'file'"@,
            CmdCompletion::Buffer => "'buffer'"@,
            CmdCompletion::Command => "'command'"@,
            CmdCompletion::Help => "'help'"@,
            CmdCompletion::Custom(s) => "'"@ + s@ + "'"@,
        }
    }

    pub fn to_lua(&self) -> (r: String)
        ensures
            r@ == self.spec_lua(),
    {
        match self {
            CmdCompletion::File => owned("'file'"),
            CmdCompletion::Buffer => owned("'buffer'"),
            CmdCompletion::Command => owned("'command'"),
            CmdCompletion::Help => owned("'help'"),
            CmdCompletion::Custom(s) => cat3("'", s.as_str(), "'"),
        }
    }
}

/// A custom Neovim user command defined via `vim.api.nvim_create_user_command`.
pub struct UserCommand {
    pub name: String,
    pub callback: String,
    pub desc: Option<String>,
    pub nargs: Option<String>,
    pub range: Option<bool>,
    pub bang: Option<bool>,
    pub complete: Option<CmdCompletion>,
}

impl UserCommand {
    pub fn new(name: &str, callback: &str) -> (r: Self)
        ensures
            r.name@ == name@,
            r.callback@ == callback@,
            r.desc is None && r.nargs is None && r.range is None && r.bang is None,
            r.complete is None,
    {
        UserCommand {
            name: owned(name),
            callback: owned(callback),
            desc: None,
            nargs: None,
            range: None,
            bang: None,
            complete: None,
        }
    }

    pub fn desc(self, d: &str) -> (r: Self)
        ensures
            opt_view(r.desc) == Some(d@),
            r == (UserCommand { desc: r.desc, ..self }),
    {
        UserCommand { desc: Some(owned(d)), ..self }
    }

    pub fn nargs(self, n: &str) -> (r: Self)
        ensures
            opt_view(r.nargs) == Some(n@),
            r == (UserCommand { nargs: r.nargs, ..self }),
    {
        UserCommand { nargs: Some(owned(n)), ..self }
    }

    pub fn range(self, v: bool) -> (r: Self)
        ensures
            r == (UserCommand { range: Some(v), ..self }),
    {
        UserCommand { range: Some(v), ..self }
    }

    pub fn bang(self, v: bool) -> (r: Self)
        ensures
            r == (UserCommand { bang: Some(v), ..self }),
    {
        UserCommand { bang: Some(v), ..self }
    }

    pub fn complete(self, c: CmdCompletion) -> (r: Self)
        ensures
            r == (UserCommand { complete: Some(c), ..self }),
    {
        UserCommand { complete: Some(c), ..self }
    }

    /// The `key = value` entries of the options table.
    pub open spec fn spec_opts(self) -> Seq<Seq<char>> {
        (match self.desc {
            Some(d) => seq!["desc = '"@ + d@ + "'"@],
            None => Seq::empty(),
        }) + (match self.nargs {
            Some(n) => seq!["nargs = '"@ + n@ + "'"@],
            None => Seq::empty(),
        }) + (match self.range {
            Some(v) => seq!["range = "@ + bool_str(v)],
            None => Seq::empty(),
        }) + (match self.bang {
            Some(v) => seq!["bang = "@ + bool_str(v)],
            None => Seq::empty(),
        }) + (match self.complete {
            Some(c) => seq!["complete = "@ + c.spec_lua()],
            None => Seq::empty(),
        })
    }

    /// The options table: `{}` or `{ k = v, … }`.
    pub open spec fn spec_opts_str(self) -> Seq<char> {
        if self.spec_opts().len() == 0 {
            "{}"@
        } else {
            "{ "@ + join(self.spec_opts(), ", "@) + " }"@
        }
    }

    fn opts_str(&self) -> (r: String)
        ensures
            r@ == self.spec_opts_str(),
    {
        let mut opts: Vec<String> = Vec::new();
        match &self.desc {
            Some(d) => {
                push_part(&mut opts, cat3("desc = '", d.as_str(), "'"));
            },
            None => {},
        }
        match &self.nargs {
            Some(n) => {
                push_part(&mut opts, cat3("nargs = '", n.as_str(), "'"));
            },
            None => {},
        }
        match self.range {
            Some(v) => {
                push_part(&mut opts, cat2("range = ", bool_text(v)));
            },
            None => {},
        }
        match self.bang {
            Some(v) => {
                push_part(&mut opts, cat2("bang = ", bool_text(v)));
            },
            None => {},
        }
        match &self.complete {
            Some(c) => {
                let l = c.to_lua();
                push_part(&mut opts, cat2("complete = ", l.as_str()));
            },
            None => {},
        }
        assert(views(opts@) =~= self.spec_opts());
        if opts.len() == 0 {
            owned("{}")
        } else {
            let j = join_strings(&opts, ", ");
            cat3("{ ", j.as_str(), " }")
        }
    }
}

impl Config for UserCommand {
    open spec fn spec_render(&self, ctx: RenderContext) -> Seq<char> {
        ctx.spec_indent() + "vim.api.nvim_create_user_command('"@ + self.name@ + "', "@ + self.callback@
            + ", "@ + self.spec_opts_str() + ")"@
    }

    open spec fn spec_doc(&self) -> Option<Seq<char>> {
        opt_view(self.desc)
    }

    fn render(&self, ctx: &RenderContext) -> (r: String) {
        let opts = self.opts_str();
        let mut r = ctx.indent();
        r.append("vim.api.nvim_create_user_command('");
        r.append(self.name.as_str());
        r.append("', ");
        r.append(self.callback.as_str());
        r.append(", ");
        r.append(opts.as_str());
        r.append(")");
        r
    }

    fn doc_comment(&self) -> (r: Option<&str>) {
        opt_as_str(&self.desc)
    }

    fn validate(&self) -> (r: Result<(), String>) {
        Ok(())
    }
}

} // verus!
