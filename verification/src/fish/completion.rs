//! `complete` statements.
use vstd::prelude::*;
use crate::base::{Config, RenderContext};
use crate::fish::util::{quote_fish, quote_fish_value};
use crate::text::{
    cat2, if_seq, join, join_strings, opt_as_str, opt_view, owned, push_part, push_str_part, views,
};

verus! {

/// A `complete` statement for tab-completion.
#[derive(Debug, Clone)]
pub struct FishCompletion {
    pub command: String,
    pub short_option: Option<String>,
    pub long_option: Option<String>,
    pub description: Option<String>,
    /// `-r` – the option requires an argument.
    pub requires_argument: bool,
    /// `-f` – the option takes no argument (disables file completions for this option).
    pub no_argument: bool,
    /// `--no-files` – suppress file completions entirely.
    pub no_files: bool,
    /// `--force-files` – allow file completions even when `--no-files` was set by another rule.
    pub force_files: bool,
    /// `--keep-order` – preserve argument order instead of sorting.
    pub keep_order: bool,
    /// `-n condition` – only complete when `condition` is true.
    pub condition: Option<String>,
    /// `-a arguments` – the possible argument values.
    pub arguments: Option<String>,
    /// `--wraps cmd` – reuse completions from another command.
    pub wraps: Option<String>,
    pub doc: Option<String>,
}

/// `prefix` followed by the value of `o`, as a one-element sequence, or
/// nothing when `o` is `None`.
pub open spec fn opt_flag(prefix: Seq<char>, o: Option<String>) -> Seq<Seq<char>> {
    match o {
        Some(v) => seq![prefix + v@],
        None => Seq::empty(),
    }
}

/// As `opt_flag`, with the value quoted for fish.
pub open spec fn opt_quoted_flag(prefix: Seq<char>, o: Option<String>) -> Seq<Seq<char>> {
    match o {
        Some(v) => seq![prefix + quote_fish(v@)],
        None => Seq::empty(),
    }
}

/// Pushes `prefix` followed by the value of `o`, when there is one.
fn push_opt_flag(parts: &mut Vec<String>, prefix: &str, o: &Option<String>)
    ensures
        views(final(parts)@) == views(old(parts)@) + opt_flag(prefix@, *o),
{
    match o {
        Some(v) => {
            push_part(parts, cat2(prefix, v.as_str()));
        },
        None => {},
    }
}

/// Pushes `prefix` followed by the quoted value of `o`, when there is one.
fn push_opt_quoted_flag(parts: &mut Vec<String>, prefix: &str, o: &Option<String>)
    ensures
        views(final(parts)@) == views(old(parts)@) + opt_quoted_flag(prefix@, *o),
{
    match o {
        Some(v) => {
            let q = quote_fish_value(v.as_str());
            push_part(parts, cat2(prefix, q.as_str()));
        },
        None => {},
    }
}

impl FishCompletion {
    pub fn new(command: &str) -> (r: Self)
        ensures
            r.command@ == command@,
            r.short_option is None && r.long_option is None && r.description is None,
            !r.requires_argument && !r.no_argument && !r.no_files && !r.force_files && !r.keep_order,
            r.condition is None && r.arguments is None && r.wraps is None && r.doc is None,
    {
        FishCompletion {
            command: owned(command),
            short_option: None,
            long_option: None,
            description: None,
            requires_argument: false,
            no_argument: false,
            no_files: false,
            force_files: false,
            keep_order: false,
            condition: None,
            arguments: None,
            wraps: None,
            doc: None,
        }
    }

    pub fn short(self, s: &str) -> (r: Self)
        ensures
            opt_view(r.short_option) == Some(s@),
            r == (FishCompletion { short_option: r.short_option, ..self }),
    {
        FishCompletion { short_option: Some(owned(s)), ..self }
    }
    pub fn long(self, l: &str) -> (r: Self)
        ensures
            opt_view(r.long_option) == Some(l@),
            r == (FishCompletion { long_option: r.long_option, ..self }),
    {
        FishCompletion { long_option: Some(owned(l)), ..self }
    }
    pub fn description(self, d: &str) -> (r: Self)
        ensures
            opt_view(r.description) == Some(d@),
            r == (FishCompletion { description: r.description, ..self }),
    {
        FishCompletion { description: Some(owned(d)), ..self }
    }
    pub fn requires_argument(self) -> (r: Self)
        ensures
            r == (FishCompletion { requires_argument: true, ..self }),
    {
        FishCompletion { requires_argument: true, ..self }
    }
    pub fn no_argument(self) -> (r: Self)
        ensures
            r == (FishCompletion { no_argument: true, ..self }),
    {
        FishCompletion { no_argument: true, ..self }
    }
    pub fn no_files(self) -> (r: Self)
        ensures
            r == (FishCompletion { no_files: true, ..self }),
    {
        FishCompletion { no_files: true, ..self }
    }
    pub fn force_files(self) -> (r: Self)
        ensures
            r == (FishCompletion { force_files: true, ..self }),
    {
        FishCompletion { force_files: true, ..self }
    }
    pub fn keep_order(self) -> (r: Self)
        ensures
            r == (FishCompletion { keep_order: true, ..self }),
    {
        FishCompletion { keep_order: true, ..self }
    }
    pub fn condition(self, c: &str) -> (r: Self)
        ensures
            opt_view(r.condition) == Some(c@),
            r == (FishCompletion { condition: r.condition, ..self }),
    {
        FishCompletion { condition: Some(owned(c)), ..self }
    }
    pub fn arguments(self, a: &str) -> (r: Self)
        ensures
            opt_view(r.arguments) == Some(a@),
            r == (FishCompletion { arguments: r.arguments, ..self }),
    {
        FishCompletion { arguments: Some(owned(a)), ..self }
    }
    pub fn wraps(self, w: &str) -> (r: Self)
        ensures
            opt_view(r.wraps) == Some(w@),
            r == (FishCompletion { wraps: r.wraps, ..self }),
    {
        FishCompletion { wraps: Some(owned(w)), ..self }
    }
    pub fn doc(self, d: &str) -> (r: Self)
        ensures
            opt_view(r.doc) == Some(d@),
            r == (FishCompletion { doc: r.doc, ..self }),
    {
        FishCompletion { doc: Some(owned(d)), ..self }
    }

    /// The words of the `complete` command.
    #[verifier::rlimit(90)]
    pub fn parts(&self) -> (r: Vec<String>)
        ensures
            views(r@) == self.spec_parts(),
    {
        let mut parts: Vec<String> = Vec::new();
        push_str_part(&mut parts, "complete");
        push_part(&mut parts, cat2("-c ", self.command.as_str()));
        push_opt_flag(&mut parts, "-s ", &self.short_option);
        push_opt_flag(&mut parts, "-l ", &self.long_option);
        if self.requires_argument {
            push_str_part(&mut parts, "-r");
        }
        if self.no_argument {
            push_str_part(&mut parts, "-f");
        }
        if self.no_files {
            push_str_part(&mut parts, "--no-files");
        }
        if self.force_files {
            push_str_part(&mut parts, "--force-files");
        }
        if self.keep_order {
            push_str_part(&mut parts, "--keep-order");
        }
        push_opt_quoted_flag(&mut parts, "-n ", &self.condition);
        push_opt_quoted_flag(&mut parts, "-a ", &self.arguments);
        push_opt_flag(&mut parts, "--wraps ", &self.wraps);
        push_opt_quoted_flag(&mut parts, "-d ", &self.description);
        assert(views(parts@) =~= self.spec_parts());
        parts
    }

    /// The words of the `complete` command.
    pub open spec fn spec_parts(self) -> Seq<Seq<char>> {
        seq!["complete"@, "-c "@ + self.command@] + opt_flag("-s "@, self.short_option) + opt_flag(
            "-l "@,
            self.long_option,
        ) + if_seq(self.requires_argument, "-r"@) + if_seq(self.no_argument, "-f"@) + if_seq(
            self.no_files,
            "--no-files"@,
        ) + if_seq(self.force_files, "--force-files"@) + if_seq(self.keep_order, "--keep-order"@)
            + opt_quoted_flag("-n "@, self.condition) + opt_quoted_flag("-a "@, self.arguments)
            + opt_flag("--wraps "@, self.wraps) + opt_quoted_flag("-d "@, self.description)
    }
}

impl Config for FishCompletion {
    open spec fn spec_render(&self, ctx: RenderContext) -> Seq<char> {
        ctx.spec_indent() + join(self.spec_parts(), " "@)
    }

    open spec fn spec_doc(&self) -> Option<Seq<char>> {
        opt_view(self.doc)
    }

    fn render(&self, ctx: &RenderContext) -> (r: String) {
        let parts = self.parts();
        let mut r = ctx.indent();
        let j = join_strings(&parts, " ");
        r.append(j.as_str());
        r
    }

    fn doc_comment(&self) -> (r: Option<&str>) {
        opt_as_str(&self.doc)
    }

    fn validate(&self) -> (r: Result<(), String>) {
        Ok(())
    }
}

} // verus!
