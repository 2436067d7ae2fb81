//! Control flow: `if`, `switch`, `for`, `while` and `begin` blocks.
use vstd::prelude::*;
use crate::base::{all_render_ok, push_renders, renders, Config, RenderContext};
use crate::fish::util::{quote_fish, quote_fish_value};
use crate::fish::variable::{quote_all, quote_all_values};
use crate::text::{
    cat2, cat3, cat4, join, join_strings, opt_seq, opt_view, owned, owned_all, push_part, views,
};

verus! {

/// A condition expression for a fish `if` or `while` block.
#[derive(Debug, Clone)]
pub enum FishCondition {
    /// `status is-interactive`
    IsInteractive,
    /// `status is-login`
    IsLogin,
    /// `status is-command-substitution`
    IsCommandSubstitution,
    /// `status is-block`
    IsBlock,
    /// Arbitrary expression, e.g. `"command -q nvim"`.
    Raw(String),
}

impl FishCondition {
    pub open spec fn spec_expr(self) -> Seq<char> {
        match self {
            FishCondition::IsInteractive => "status is-interactive"@,
            FishCondition::IsLogin => "status is-login"@,
            FishCondition::IsCommandSubstitution => "status is-command-substitution"@,
            FishCondition::IsBlock => "status is-block"@,
            FishCondition::Raw(s) => s@,
        }
    }

    pub fn to_expr(&self) -> (r: String)
        ensures
            r@ == self.spec_expr(),
    {
        match self {
            FishCondition::IsInteractive => owned("status is-interactive"),
            FishCondition::IsLogin => owned("status is-login"),
            FishCondition::IsCommandSubstitution => owned("status is-command-substitution"),
            FishCondition::IsBlock => owned("status is-block"),
            FishCondition::Raw(s) => s.clone(),
        }
    }
}

/// A branch inside a `FishIf` block (condition + body).
///
/// Represents an `else if condition` clause. Build one by collecting
/// `Config` nodes and pass them to [`FishIf::else_if`].
pub struct FishElseIf {
    pub condition: FishCondition,
    pub body: Vec<Box<dyn Config>>,
}

/// The lines of the `else if` branches, in order: each condition line
/// followed by the branch body rendered in `inner`.
pub open spec fn else_if_lines(branches: Seq<FishElseIf>, ctx: RenderContext, inner: RenderContext) -> Seq<
    Seq<char>,
>
    decreases branches.len(),
{
    if branches.len() == 0 {
        Seq::empty()
    } else {
        else_if_lines(branches.drop_last(), ctx, inner) + seq![
            ctx.spec_indent() + "else if "@ + branches.last().condition.spec_expr(),
        ] + renders(branches.last().body@, inner)
    }
}

/// Every branch body can be rendered in `inner`.
pub open spec fn branches_render_ok(branches: Seq<FishElseIf>, inner: RenderContext) -> bool {
    forall|i: int| 0 <= i < branches.len() ==> all_render_ok(#[trigger] branches[i].body@, inner)
}

/// A fish `if … else if … else … end` block.
pub struct FishIf {
    pub condition: FishCondition,
    pub body: Vec<Box<dyn Config>>,
    pub else_if_branches: Vec<FishElseIf>,
    pub else_body: Vec<Box<dyn Config>>,
}

impl FishIf {
    pub fn new(condition: FishCondition) -> (r: Self)
        ensures
            r.condition == condition,
            r.body@.len() == 0,
            r.else_if_branches@.len() == 0,
            r.else_body@.len() == 0,
    {
        FishIf { condition, body: Vec::new(), else_if_branches: Vec::new(), else_body: Vec::new() }
    }

    pub fn add(self, node: Box<dyn Config>) -> (r: Self)
        ensures
            r.body@ == self.body@.push(node),
            r == (FishIf { body: r.body, ..self }),
    {
        let mut s = self;
        s.body.push(node);
        s
    }

    pub fn else_if(self, condition: FishCondition, nodes: Vec<Box<dyn Config>>) -> (r: Self)
        ensures
            r.else_if_branches@ == self.else_if_branches@.push(FishElseIf { condition, body: nodes }),
            r == (FishIf { else_if_branches: r.else_if_branches, ..self }),
    {
        let mut s = self;
        s.else_if_branches.push(FishElseIf { condition, body: nodes });
        s
    }

    pub fn add_else(self, node: Box<dyn Config>) -> (r: Self)
        ensures
            r.else_body@ == self.else_body@.push(node),
            r == (FishIf { else_body: r.else_body, ..self }),
    {
        let mut s = self;
        s.else_body.push(node);
        s
    }

    /// The lines of the block, before joining.
    pub open spec fn spec_lines(self, ctx: RenderContext) -> Seq<Seq<char>> {
        let inner = ctx.spec_deeper();
        seq![ctx.spec_indent() + "if "@ + self.condition.spec_expr()] + renders(self.body@, inner)
            + else_if_lines(self.else_if_branches@, ctx, inner) + (if self.else_body@.len() == 0 {
            Seq::empty()
        } else {
            seq![ctx.spec_indent() + "else"@] + renders(self.else_body@, inner)
        }) + seq![ctx.spec_indent() + "end"@]
    }
}

fn push_else_if_lines(
    out: &mut Vec<String>,
    branches: &Vec<FishElseIf>,
    ctx: &RenderContext,
    inner: &RenderContext,
)
    requires
        ctx.fits(),
        branches_render_ok(branches@, *inner),
    ensures
        views(final(out)@) == views(old(out)@) + else_if_lines(branches@, *ctx, *inner),
{
    let ghost start = views(out@);
    let indent = ctx.indent();
    let mut i: usize = 0;
    while i < branches.len()
        invariant
            i <= branches@.len(),
            ctx.fits(),
            indent@ == ctx.spec_indent(),
            branches_render_ok(branches@, *inner),
            views(out@) == start + else_if_lines(branches@.take(i as int), *ctx, *inner),
        decreases branches@.len() - i,
    {
        assert(branches@.take(i + 1).drop_last() =~= branches@.take(i as int));
        let e = branches[i].condition.to_expr();
        push_part(out, cat3(indent.as_str(), "else if ", e.as_str()));
        assert(all_render_ok(branches@[i as int].body@, *inner));
        push_renders(out, &branches[i].body, inner);
        i = i + 1;
    }
    assert(branches@.take(branches@.len() as int) =~= branches@);
}

impl Config for FishIf {
    open spec fn spec_render(&self, ctx: RenderContext) -> Seq<char> {
        join(self.spec_lines(ctx), "\n"@)
    }

    open spec fn render_ok(&self, ctx: RenderContext) -> bool {
        &&& ctx.fits()
        &&& ctx.indent_level < usize::MAX
        &&& all_render_ok(self.body@, ctx.spec_deeper())
        &&& branches_render_ok(self.else_if_branches@, ctx.spec_deeper())
        &&& all_render_ok(self.else_body@, ctx.spec_deeper())
    }

    fn render(&self, ctx: &RenderContext) -> (r: String) {
        let indent = ctx.indent();
        let inner = ctx.deeper();
        let mut out: Vec<String> = Vec::new();
        let e = self.condition.to_expr();
        push_part(&mut out, cat3(indent.as_str(), "if ", e.as_str()));
        push_renders(&mut out, &self.body, &inner);
        push_else_if_lines(&mut out, &self.else_if_branches, ctx, &inner);
        let ghost mid = views(out@);
        if self.else_body.len() > 0 {
            push_part(&mut out, cat2(indent.as_str(), "else"));
            push_renders(&mut out, &self.else_body, &inner);
        }
        push_part(&mut out, cat2(indent.as_str(), "end"));
        assert(views(out@) =~= self.spec_lines(*ctx));
        join_strings(&out, "\n")
    }

    fn doc_comment(&self) -> (r: Option<&str>) {
        None
    }

    fn validate(&self) -> (r: Result<(), String>) {
        Ok(())
    }
}

// ── Switch / Case ─────────────────────────────────────────────────────────────

/// A single `case pattern … end` arm inside a `switch`.
///
/// The `pattern` may contain globs (e.g. `"*.fish"`). Build arms with
/// [`FishSwitch::case`] rather than constructing this directly.
pub struct FishCase {
    pub pattern: String,
    pub body: Vec<Box<dyn Config>>,
}

/// The lines of the `case` arms: each `case` line one level deeper than
/// `ctx`, followed by the arm body two levels deeper.
pub open spec fn case_lines(cases: Seq<FishCase>, ctx: RenderContext) -> Seq<Seq<char>>
    decreases cases.len(),
{
    if cases.len() == 0 {
        Seq::empty()
    } else {
        case_lines(cases.drop_last(), ctx) + seq![
            ctx.spec_deeper().spec_indent() + "case "@ + cases.last().pattern@,
        ] + renders(cases.last().body@, ctx.spec_deeper().spec_deeper())
    }
}

/// Every arm body can be rendered in `inner`.
pub open spec fn cases_render_ok(cases: Seq<FishCase>, inner: RenderContext) -> bool {
    forall|i: int| 0 <= i < cases.len() ==> all_render_ok(#[trigger] cases[i].body@, inner)
}

/// A fish `switch value … end` statement.
pub struct FishSwitch {
    pub value: String,
    pub cases: Vec<FishCase>,
}

impl FishSwitch {
    pub fn new(value: &str) -> (r: Self)
        ensures
            r.value@ == value@,
            r.cases@.len() == 0,
    {
        FishSwitch { value: owned(value), cases: Vec::new() }
    }

    pub fn case(self, pattern: &str, nodes: Vec<Box<dyn Config>>) -> (r: Self)
        ensures
            r.value == self.value,
            r.cases@.len() == self.cases@.len() + 1,
            r.cases@.drop_last() == self.cases@,
            r.cases@.last().pattern@ == pattern@,
            r.cases@.last().body == nodes,
    {
        let mut s = self;
        s.cases.push(FishCase { pattern: owned(pattern), body: nodes });
        assert(s.cases@.drop_last() =~= self.cases@);
        s
    }
}

impl Config for FishSwitch {
    open spec fn spec_render(&self, ctx: RenderContext) -> Seq<char> {
        join(
            seq![ctx.spec_indent() + "switch "@ + quote_fish(self.value@)] + case_lines(
                self.cases@,
                ctx,
            ) + seq![ctx.spec_indent() + "end"@],
            "\n"@,
        )
    }

    open spec fn render_ok(&self, ctx: RenderContext) -> bool {
        &&& ctx.fits()
        &&& ctx.deeper_fits()
        &&& ctx.spec_deeper().indent_level < usize::MAX
        &&& cases_render_ok(self.cases@, ctx.spec_deeper().spec_deeper())
    }

    fn render(&self, ctx: &RenderContext) -> (r: String) {
        let indent = ctx.indent();
        let inner = ctx.deeper();
        let body_indent = inner.deeper();
        let inner_indent = inner.indent();
        let mut out: Vec<String> = Vec::new();
        let q = quote_fish_value(self.value.as_str());
        push_part(&mut out, cat3(indent.as_str(), "switch ", q.as_str()));
        let ghost start = views(out@);
        let mut i: usize = 0;
        while i < self.cases.len()
            invariant
                i <= self.cases@.len(),
                inner == ctx.spec_deeper(),
                body_indent == ctx.spec_deeper().spec_deeper(),
                inner_indent@ == ctx.spec_deeper().spec_indent(),
                cases_render_ok(self.cases@, body_indent),
                views(out@) == start + case_lines(self.cases@.take(i as int), *ctx),
            decreases self.cases@.len() - i,
        {
            assert(self.cases@.take(i + 1).drop_last() =~= self.cases@.take(i as int));
            push_part(&mut out, cat3(inner_indent.as_str(), "case ", self.cases[i].pattern.as_str()));
            assert(all_render_ok(self.cases@[i as int].body@, body_indent));
            push_renders(&mut out, &self.cases[i].body, &body_indent);
            i = i + 1;
        }
        assert(self.cases@.take(self.cases@.len() as int) =~= self.cases@);
        push_part(&mut out, cat2(indent.as_str(), "end"));
        assert(views(out@) =~= seq![ctx.spec_indent() + "switch "@ + quote_fish(self.value@)]
            + case_lines(self.cases@, *ctx) + seq![ctx.spec_indent() + "end"@]);
        join_strings(&out, "\n")
    }

    fn doc_comment(&self) -> (r: Option<&str>) {
        None
    }

    fn validate(&self) -> (r: Result<(), String>) {
        Ok(())
    }
}

// ── For Loop ──────────────────────────────────────────────────────────────────

/// A fish `for var in items … end` loop.
pub struct FishFor {
    pub variable: String,
    pub items: Vec<String>,
    pub body: Vec<Box<dyn Config>>,
}

impl FishFor {
    pub fn new(variable: &str, items: &[&str]) -> (r: Self)
        ensures
            r.variable@ == variable@,
            views(r.items@) == items@.map_values(|s: &str| s@),
            r.body@.len() == 0,
    {
        FishFor { variable: owned(variable), items: owned_all(items), body: Vec::new() }
    }

    pub fn add(self, node: Box<dyn Config>) -> (r: Self)
        ensures
            r.body@ == self.body@.push(node),
            r == (FishFor { body: r.body, ..self }),
    {
        let mut s = self;
        s.body.push(node);
        s
    }
}

impl Config for FishFor {
    open spec fn spec_render(&self, ctx: RenderContext) -> Seq<char> {
        join(
            seq![
                ctx.spec_indent() + "for "@ + self.variable@ + " in "@ + join(
                    quote_all(views(self.items@)),
                    " "@,
                ),
            ] + renders(self.body@, ctx.spec_deeper()) + seq![ctx.spec_indent() + "end"@],
            "\n"@,
        )
    }

    open spec fn render_ok(&self, ctx: RenderContext) -> bool {
        &&& ctx.fits()
        &&& ctx.indent_level < usize::MAX
        &&& all_render_ok(self.body@, ctx.spec_deeper())
    }

    fn render(&self, ctx: &RenderContext) -> (r: String) {
        let indent = ctx.indent();
        let inner = ctx.deeper();
        let quoted = quote_all_values(&self.items);
        let items = join_strings(&quoted, " ");
        let mut out: Vec<String> = Vec::new();
        let mut first = cat4(indent.as_str(), "for ", self.variable.as_str(), " in ");
        first.append(items.as_str());
        push_part(&mut out, first);
        push_renders(&mut out, &self.body, &inner);
        push_part(&mut out, cat2(indent.as_str(), "end"));
        assert(views(out@) =~= seq![
            ctx.spec_indent() + "for "@ + self.variable@ + " in "@ + join(
                quote_all(views(self.items@)),
                " "@,
            ),
        ] + renders(self.body@, ctx.spec_deeper()) + seq![ctx.spec_indent() + "end"@]);
        join_strings(&out, "\n")
    }

    fn doc_comment(&self) -> (r: Option<&str>) {
        None
    }

    fn validate(&self) -> (r: Result<(), String>) {
        Ok(())
    }
}

// ── While Loop ────────────────────────────────────────────────────────────────

/// A fish `while condition … end` loop.
pub struct FishWhile {
    pub condition: FishCondition,
    pub body: Vec<Box<dyn Config>>,
}

impl FishWhile {
    pub fn new(condition: FishCondition) -> (r: Self)
        ensures
            r.condition == condition,
            r.body@.len() == 0,
    {
        FishWhile { condition, body: Vec::new() }
    }

    pub fn add(self, node: Box<dyn Config>) -> (r: Self)
        ensures
            r.body@ == self.body@.push(node),
            r.condition == self.condition,
    {
        let mut s = self;
        s.body.push(node);
        s
    }
}

impl Config for FishWhile {
    open spec fn spec_render(&self, ctx: RenderContext) -> Seq<char> {
        join(
            seq![ctx.spec_indent() + "while "@ + self.condition.spec_expr()] + renders(
                self.body@,
                ctx.spec_deeper(),
            ) + seq![ctx.spec_indent() + "end"@],
            "\n"@,
        )
    }

    open spec fn render_ok(&self, ctx: RenderContext) -> bool {
        &&& ctx.fits()
        &&& ctx.indent_level < usize::MAX
        &&& all_render_ok(self.body@, ctx.spec_deeper())
    }

    fn render(&self, ctx: &RenderContext) -> (r: String) {
        let indent = ctx.indent();
        let inner = ctx.deeper();
        let mut out: Vec<String> = Vec::new();
        let e = self.condition.to_expr();
        push_part(&mut out, cat3(indent.as_str(), "while ", e.as_str()));
        push_renders(&mut out, &self.body, &inner);
        push_part(&mut out, cat2(indent.as_str(), "end"));
        assert(views(out@) =~= seq![ctx.spec_indent() + "while "@ + self.condition.spec_expr()]
            + renders(self.body@, ctx.spec_deeper()) + seq![ctx.spec_indent() + "end"@]);
        join_strings(&out, "\n")
    }

    fn doc_comment(&self) -> (r: Option<&str>) {
        None
    }

    fn validate(&self) -> (r: Result<(), String>) {
        Ok(())
    }
}

// ── Begin Block ───────────────────────────────────────────────────────────────

/// A fish `begin … end` block for grouping commands or redirections.
pub struct FishBegin {
    pub body: Vec<Box<dyn Config>>,
    pub comment: Option<String>,
}

impl Default for FishBegin {
    fn default() -> (r: Self)
        ensures
            r.body@.len() == 0,
            r.comment is None,
    {
        FishBegin { body: Vec::new(), comment: None }
    }
}

impl FishBegin {
    pub fn new() -> (r: Self)
        ensures
            r.body@.len() == 0,
            r.comment is None,
    {
        Self::default()
    }

    pub fn with_comment(self, c: &str) -> (r: Self)
        ensures
            opt_view(r.comment) == Some(c@),
            r.body == self.body,
    {
        FishBegin { comment: Some(owned(c)), ..self }
    }

    pub fn add(self, node: Box<dyn Config>) -> (r: Self)
        ensures
            r.body@ == self.body@.push(node),
            r.comment == self.comment,
    {
        let mut s = self;
        s.body.push(node);
        s
    }
}

impl Config for FishBegin {
    open spec fn spec_render(&self, ctx: RenderContext) -> Seq<char> {
        join(
            opt_seq(
                match self.comment {
                    Some(c) => Some(ctx.spec_indent() + "# "@ + c@),
                    None => None,
                },
            ) + seq![ctx.spec_indent() + "begin"@] + renders(self.body@, ctx.spec_deeper()) + seq![
                ctx.spec_indent() + "end"@,
            ],
            "\n"@,
        )
    }

    open spec fn render_ok(&self, ctx: RenderContext) -> bool {
        &&& ctx.fits()
        &&& ctx.indent_level < usize::MAX
        &&& all_render_ok(self.body@, ctx.spec_deeper())
    }

    fn render(&self, ctx: &RenderContext) -> (r: String) {
        let indent = ctx.indent();
        let inner = ctx.deeper();
        let mut out: Vec<String> = Vec::new();
        match &self.comment {
            Some(c) => {
                push_part(&mut out, cat3(indent.as_str(), "# ", c.as_str()));
            },
            None => {},
        }
        push_part(&mut out, cat2(indent.as_str(), "begin"));
        push_renders(&mut out, &self.body, &inner);
        push_part(&mut out, cat2(indent.as_str(), "end"));
        assert(views(out@) =~= opt_seq(
            match self.comment {
                Some(c) => Some(ctx.spec_indent() + "# "@ + c@),
                None => None,
            },
        ) + seq![ctx.spec_indent() + "begin"@] + renders(self.body@, ctx.spec_deeper()) + seq![
            ctx.spec_indent() + "end"@,
        ]);
        join_strings(&out, "\n")
    }

    fn doc_comment(&self) -> (r: Option<&str>) {
        None
    }

    fn validate(&self) -> (r: Result<(), String>) {
        Ok(())
    }
}

} // verus!
