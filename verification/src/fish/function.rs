//! `function … end` definitions.
use vstd::prelude::*;
use crate::base::{Config, RenderContext};
use crate::fish::util::{block_text, quote_fish, quote_fish_value, render_block};
use crate::text::{
    cat2, concat, concat_strings, join, join_strings, lemma_concat_occurs, lemma_join_occurs,
    lemma_occurs_trans, lemma_occurs_within, occurs_in, opt_as_str, opt_view, owned, owned_all, prefixed, push_part,
    push_prefixed, views,
};

verus! {

/// Event trigger for a fish function.
#[derive(Debug, Clone)]
pub enum FishEvent {
    /// `--on-event event_name` – fires when `emit event_name` is called.
    Event(String),
    /// `--on-variable var_name` – fires when the variable changes.
    Variable(String),
    /// `--on-process-exit pid_or_cmd` – fires when a process exits.
    ProcessExit(String),
    /// `--on-signal SIGNAL` – fires on the given signal (e.g. `SIGINT`).
    Signal(String),
    /// `--on-job-exit pid_or_cmd` – fires when a job exits.
    JobExit(String),
}

impl FishEvent {
    pub open spec fn spec_flag(self) -> Seq<char> {
        match self {
            FishEvent::Event(s) => "--on-event "@ + s@,
            FishEvent::Variable(s) => "--on-variable "@ + s@,
            FishEvent::ProcessExit(s) => "--on-process-exit "@ + s@,
            FishEvent::Signal(s) => "--on-signal "@ + s@,
            FishEvent::JobExit(s) => "--on-job-exit "@ + s@,
        }
    }

    pub fn to_flag(&self) -> (r: String)
        ensures
            r@ == self.spec_flag(),
    {
        match self {
            FishEvent::Event(s) => cat2("--on-event ", s.as_str()),
            FishEvent::Variable(s) => cat2("--on-variable ", s.as_str()),
            FishEvent::ProcessExit(s) => cat2("--on-process-exit ", s.as_str()),
            FishEvent::Signal(s) => cat2("--on-signal ", s.as_str()),
            FishEvent::JobExit(s) => cat2("--on-job-exit ", s.as_str()),
        }
    }
}

/// A `function ... end` definition.
#[derive(Debug, Clone)]
pub struct FishFunction {
    pub name: String,
    pub body: Vec<String>,
    pub description: Option<String>,
    pub events: Vec<FishEvent>,
    pub argument_names: Vec<String>,
    pub inherit_variable: Vec<String>,
    /// `--wraps cmd` – copies completions from another command.
    pub wrap: Option<String>,
    pub doc: Option<String>,
}

impl FishFunction {
    pub fn new(name: &str, body: &[&str]) -> (r: Self)
        ensures
            r.name@ == name@,
            views(r.body@) == body@.map_values(|s: &str| s@),
            r.description is None,
            r.events@.len() == 0,
            r.argument_names@.len() == 0,
            r.inherit_variable@.len() == 0,
            r.wrap is None,
            r.doc is None,
    {
        FishFunction {
            name: owned(name),
            body: owned_all(body),
            description: None,
            events: Vec::new(),
            argument_names: Vec::new(),
            inherit_variable: Vec::new(),
            wrap: None,
            doc: None,
        }
    }

    pub fn description(self, d: &str) -> (r: Self)
        ensures
            opt_view(r.description) == Some(d@),
            r == (FishFunction { description: r.description, ..self }),
    {
        FishFunction { description: Some(owned(d)), ..self }
    }

    pub fn on_event(self, event: FishEvent) -> (r: Self)
        ensures
            r.events@ == self.events@.push(event),
            r == (FishFunction { events: r.events, ..self }),
    {
        let mut f = self;
        f.events.push(event);
        f
    }

    pub fn argument_names(self, names: &[&str]) -> (r: Self)
        ensures
            views(r.argument_names@) == names@.map_values(|s: &str| s@),
            r == (FishFunction { argument_names: r.argument_names, ..self }),
    {
        FishFunction { argument_names: owned_all(names), ..self }
    }

    pub fn inherit_variable(self, vars: &[&str]) -> (r: Self)
        ensures
            views(r.inherit_variable@) == vars@.map_values(|s: &str| s@),
            r == (FishFunction { inherit_variable: r.inherit_variable, ..self }),
    {
        FishFunction { inherit_variable: owned_all(vars), ..self }
    }

    /// Copy completions from `cmd` via `--wraps`.
    pub fn wrap(self, cmd: &str) -> (r: Self)
        ensures
            opt_view(r.wrap) == Some(cmd@),
            r == (FishFunction { wrap: r.wrap, ..self }),
    {
        FishFunction { wrap: Some(owned(cmd)), ..self }
    }

    pub fn doc(self, d: &str) -> (r: Self)
        ensures
            opt_view(r.doc) == Some(d@),
            r == (FishFunction { doc: r.doc, ..self }),
    {
        FishFunction { doc: Some(owned(d)), ..self }
    }

    /// The option pieces that follow `function <name>` in the header.
    pub open spec fn spec_header_pieces(self) -> Seq<Seq<char>> {
        (match self.description {
            Some(d) => seq![" --description "@ + quote_fish(d@)],
            None => Seq::empty(),
        }) + prefixed(" --inherit-variable "@, views(self.inherit_variable@)) + (
        if self.argument_names@.len() == 0 {
            Seq::empty()
        } else {
            seq![" --argument-names "@ + join(views(self.argument_names@), " "@)]
        }) + (match self.wrap {
            Some(w) => seq![" --wraps "@ + w@],
            None => Seq::empty(),
        }) + Seq::new(self.events@.len(), |i: int| " "@ + self.events@[i].spec_flag())
    }

    /// The header line `function <name> <options>`.
    pub open spec fn spec_header(self) -> Seq<char> {
        "function "@ + self.name@ + concat(self.spec_header_pieces())
    }

    fn header(&self) -> (r: String)
        ensures
            r@ == self.spec_header(),
    {
        let mut pieces: Vec<String> = Vec::new();
        match &self.description {
            Some(d) => {
                let q = quote_fish_value(d.as_str());
                push_part(&mut pieces, cat2(" --description ", q.as_str()));
            },
            None => {},
        }
        push_prefixed(&mut pieces, " --inherit-variable ", &self.inherit_variable);
        if self.argument_names.len() > 0 {
            let names = join_strings(&self.argument_names, " ");
            push_part(&mut pieces, cat2(" --argument-names ", names.as_str()));
        }
        match &self.wrap {
            Some(w) => {
                push_part(&mut pieces, cat2(" --wraps ", w.as_str()));
            },
            None => {},
        }
        let ghost before = views(pieces@);
        let mut i: usize = 0;
        while i < self.events.len()
            invariant
                i <= self.events@.len(),
                views(pieces@) == before + Seq::new(
                    i as nat,
                    |k: int| " "@ + self.events@[k].spec_flag(),
                ),
            decreases self.events@.len() - i,
        {
            let f = self.events[i].to_flag();
            push_part(&mut pieces, cat2(" ", f.as_str()));
            assert(Seq::new((i + 1) as nat, |k: int| " "@ + self.events@[k].spec_flag()) =~= Seq::new(
                i as nat,
                |k: int| " "@ + self.events@[k].spec_flag(),
            ).push(" "@ + self.events@[i as int].spec_flag()));
            i = i + 1;
        }
        assert(views(pieces@) =~= self.spec_header_pieces());
        let rest = concat_strings(&pieces);
        let mut r = String::from_str("function ");
        r.append(self.name.as_str());
        r.append(rest.as_str());
        r
    }
}

impl Config for FishFunction {
    open spec fn spec_render(&self, ctx: RenderContext) -> Seq<char> {
        block_text(ctx, self.spec_header(), views(self.body@))
    }

    open spec fn render_ok(&self, ctx: RenderContext) -> bool {
        ctx.fits() && ctx.deeper_fits()
    }

    open spec fn spec_doc(&self) -> Option<Seq<char>> {
        opt_view(self.doc)
    }

    fn render(&self, ctx: &RenderContext) -> (r: String) {
        let header = self.header();
        render_block(ctx, header.as_str(), &self.body)
    }

    fn doc_comment(&self) -> (r: Option<&str>) {
        opt_as_str(&self.doc)
    }

    fn validate(&self) -> (r: Result<(), String>) {
        Ok(())
    }
}

/// A function with argument names passes them after `--argument-names`,
/// separated by single spaces, so that fish binds each name as its own
/// argument: the header line, and so the rendered block, contains
/// ` --argument-names n1 n2 … nk`.
pub proof fn argument_names_are_space_separated(f: FishFunction, ctx: RenderContext)
    requires
        f.argument_names@.len() > 0,
    ensures
        occurs_in(" --argument-names "@ + join(views(f.argument_names@), " "@), f.spec_header()),
        occurs_in(
            " --argument-names "@ + join(views(f.argument_names@), " "@),
            f.spec_render(ctx),
        ),
{
    let t = " --argument-names "@ + join(views(f.argument_names@), " "@);
    let a = match f.description {
        Some(d) => seq![" --description "@ + quote_fish(d@)],
        None => Seq::<Seq<char>>::empty(),
    };
    let b = prefixed(" --inherit-variable "@, views(f.inherit_variable@));
    let pieces = f.spec_header_pieces();
    let k: int = (a.len() + b.len()) as int;
    assert(pieces[k] == t);
    lemma_concat_occurs(pieces, k);
    lemma_occurs_within(t, concat(pieces), "function "@ + f.name@);
    assert(f.spec_header() == ("function "@ + f.name@) + concat(pieces));
    lemma_occurs_within(t, f.spec_header(), ctx.spec_indent());
    let lines = seq![ctx.spec_indent() + f.spec_header()] + prefixed(
        ctx.spec_deeper().spec_indent(),
        views(f.body@),
    ) + seq![ctx.spec_indent() + "end"@];
    assert(lines[0] == ctx.spec_indent() + f.spec_header());
    lemma_join_occurs(lines, "\n"@, 0);
    lemma_occurs_trans(t, lines[0], join(lines, "\n"@));
}

} // verus!
