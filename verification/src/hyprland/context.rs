//! The Hyprland node family: the rendering context, the `HyprlandConfig`
//! trait and the `HyprlandConfigTree` composite.
use vstd::prelude::*;
use crate::text::{
    cat2, join, join_strings, lemma_spaces_add, lines, nonempty, opt_view, owned, prefixed, push_nonempty, push_part,
    push_prefixed, result_view, spaces, spaces_string, split_lines, views,
};

verus! {

/// Rendering context for Hyprland configuration (tracks indentation for nested sections).
#[derive(Debug, Clone, Copy)]
pub struct HyprlandRenderContext {
    pub indent_level: usize,
    pub indent_width: usize,
}

impl Default for HyprlandRenderContext {
    fn default() -> (r: Self)
        ensures
            r == HyprlandRenderContext::spec_default(),
    {
        HyprlandRenderContext { indent_level: 0, indent_width: 4 }
    }
}

impl HyprlandRenderContext {
    /// The default context: level 0, four spaces per level.
    pub open spec fn spec_default() -> Self {
        HyprlandRenderContext { indent_level: 0, indent_width: 4 }
    }

    /// The indentation width in characters fits in a `usize`.
    pub open spec fn fits(self) -> bool {
        self.indent_level * self.indent_width <= usize::MAX
    }

    /// The indentation prefix: `indent_level * indent_width` spaces.
    pub open spec fn spec_indent(self) -> Seq<char> {
        spaces((self.indent_level * self.indent_width) as nat)
    }

    /// The same context one indentation level deeper.
    pub open spec fn spec_deeper(self) -> Self {
        HyprlandRenderContext { indent_level: (self.indent_level + 1) as usize, ..self }
    }

    pub fn indent(&self) -> (r: String)
        requires
            self.fits(),
        ensures
            r@ == self.spec_indent(),
    {
        spaces_string(self.indent_level * self.indent_width)
    }

    pub fn deeper(&self) -> (r: Self)
        requires
            self.indent_level < usize::MAX,
        ensures
            r == self.spec_deeper(),
    {
        HyprlandRenderContext { indent_level: self.indent_level + 1, ..*self }
    }
}

/// One level deeper indents by exactly one more indentation width, and
/// changes nothing else of the context.
pub proof fn deeper_adds_one_indent_width(ctx: HyprlandRenderContext)
    requires
        ctx.indent_level < usize::MAX,
        ctx.spec_deeper().fits(),
    ensures
        ctx.spec_deeper().spec_indent() == ctx.spec_indent() + spaces(ctx.indent_width as nat),
        ctx.spec_deeper().indent_level == ctx.indent_level + 1,
        ctx.spec_deeper().indent_width == ctx.indent_width,
{
    let l = ctx.indent_level as int;
    let w = ctx.indent_width as int;
    assert((l + 1) * w == l * w + w) by (nonlinear_arith);
    assert(l * w >= 0) by (nonlinear_arith)
        requires
            l >= 0,
            w >= 0,
    ;
    lemma_spaces_add((l * w) as nat, w as nat);
}

/// Central trait for all Hyprland configuration nodes.
pub trait HyprlandConfig {
    /// The text this node renders to in `ctx`.
    spec fn spec_render(&self, ctx: HyprlandRenderContext) -> Seq<char>;

    /// The contexts in which rendering computes no overflowing indentation.
    open spec fn render_ok(&self, ctx: HyprlandRenderContext) -> bool {
        ctx.fits()
    }

    /// The outcome of validating this node.
    open spec fn spec_validate(&self) -> Result<(), Seq<char>> {
        Ok(())
    }

    /// Render this node into Hyprland config text.
    fn render(&self, ctx: &HyprlandRenderContext) -> (r: String)
        requires
            self.render_ok(*ctx),
        ensures
            r@ == self.spec_render(*ctx),
    ;

    /// Convenience: render with the default context.
    fn generate(&self) -> (r: String)
        requires
            self.render_ok(HyprlandRenderContext::spec_default()),
        ensures
            r@ == self.spec_render(HyprlandRenderContext::spec_default()),
    {
        self.render(&HyprlandRenderContext::default())
    }

    /// Pre-render validation hook.
    fn validate(&self) -> (r: Result<(), String>)
        ensures
            result_view(r) == self.spec_validate(),
    ;
}

// ── Helpers over node lists ───────────────────────────────────────────────────

/// Every node of `nodes` can be rendered in `ctx`.
pub open spec fn hypr_all_render_ok(
    nodes: Seq<Box<dyn HyprlandConfig>>,
    ctx: HyprlandRenderContext,
) -> bool {
    forall|i: int| 0 <= i < nodes.len() ==> #[trigger] nodes[i].render_ok(ctx)
}

/// The non-empty renderings of `nodes` in `ctx`, in order.
pub open spec fn hypr_nonempty_renders(
    nodes: Seq<Box<dyn HyprlandConfig>>,
    ctx: HyprlandRenderContext,
) -> Seq<Seq<char>>
    decreases nodes.len(),
{
    if nodes.len() == 0 {
        Seq::empty()
    } else {
        hypr_nonempty_renders(nodes.drop_last(), ctx) + nonempty(
            nodes[nodes.len() - 1].spec_render(ctx),
        )
    }
}

/// The error messages of the nodes that fail validation, in order.
pub open spec fn hypr_errors_of(nodes: Seq<Box<dyn HyprlandConfig>>) -> Seq<Seq<char>>
    decreases nodes.len(),
{
    if nodes.len() == 0 {
        Seq::empty()
    } else {
        hypr_errors_of(nodes.drop_last()) + match nodes[nodes.len() - 1].spec_validate() {
            Ok(()) => Seq::<Seq<char>>::empty(),
            Err(e) => seq![e],
        }
    }
}

/// `Ok` when no node reports an error, otherwise all messages in order.
pub open spec fn hypr_validate_all(nodes: Seq<Box<dyn HyprlandConfig>>) -> Result<
    (),
    Seq<Seq<char>>,
> {
    if hypr_errors_of(nodes).len() == 0 {
        Ok(())
    } else {
        Err(hypr_errors_of(nodes))
    }
}

/// The view of the outcome of validating a list of nodes.
pub open spec fn errors_view(r: Result<(), Vec<String>>) -> Result<(), Seq<Seq<char>>> {
    match r {
        Ok(()) => Ok(()),
        Err(v) => Err(views(v@)),
    }
}

/// Appends the non-empty renderings of `nodes` to `out`.
fn push_nonempty_renders(
    out: &mut Vec<String>,
    nodes: &Vec<Box<dyn HyprlandConfig>>,
    ctx: &HyprlandRenderContext,
)
    requires
        hypr_all_render_ok(nodes@, *ctx),
    ensures
        views(final(out)@) == views(old(out)@) + hypr_nonempty_renders(nodes@, *ctx),
{
    let ghost start = views(out@);
    let mut i: usize = 0;
    while i < nodes.len()
        invariant
            i <= nodes@.len(),
            hypr_all_render_ok(nodes@, *ctx),
            views(out@) == start + hypr_nonempty_renders(nodes@.take(i as int), *ctx),
        decreases nodes@.len() - i,
    {
        assert(nodes@.take(i + 1).drop_last() =~= nodes@.take(i as int));
        assert(nodes@[i as int].render_ok(*ctx));
        let r = nodes[i].render(ctx);
        push_nonempty(out, r);
        i = i + 1;
    }
    assert(nodes@.take(nodes@.len() as int) =~= nodes@);
}

/// Validates every node, collecting the error messages in order.
fn hypr_collect_errors(nodes: &Vec<Box<dyn HyprlandConfig>>) -> (r: Vec<String>)
    ensures
        views(r@) == hypr_errors_of(nodes@),
{
    let mut errors: Vec<String> = Vec::new();
    let mut i: usize = 0;
    while i < nodes.len()
        invariant
            i <= nodes@.len(),
            views(errors@) == hypr_errors_of(nodes@.take(i as int)),
        decreases nodes@.len() - i,
    {
        assert(nodes@.take(i + 1).drop_last() =~= nodes@.take(i as int));
        match nodes[i].validate() {
            Ok(()) => {},
            Err(e) => {
                push_part(&mut errors, e);
            },
        }
        i = i + 1;
    }
    assert(nodes@.take(nodes@.len() as int) =~= nodes@);
    errors
}

/// Validating a list of nodes succeeds exactly when every node validates;
/// otherwise it reports at least one error.
pub proof fn validate_all_ok_iff_every_node_ok(nodes: Seq<Box<dyn HyprlandConfig>>)
    ensures
        hypr_validate_all(nodes) is Ok <==> (forall|i: int|
            0 <= i < nodes.len() ==> (#[trigger] nodes[i].spec_validate()) is Ok),
        hypr_validate_all(nodes) matches Err(es) ==> es.len() >= 1,
    decreases nodes.len(),
{
    if nodes.len() > 0 {
        validate_all_ok_iff_every_node_ok(nodes.drop_last());
        let last = nodes.len() - 1;
        assert forall|i: int| 0 <= i < nodes.drop_last().len() implies nodes.drop_last()[i] == nodes[i] by {}
        if hypr_errors_of(nodes).len() == 0 {
            assert(hypr_errors_of(nodes.drop_last()).len() == 0);
            assert forall|i: int| 0 <= i < nodes.len() implies (#[trigger] nodes[i].spec_validate()) is Ok by {
                if i < last {
                    assert(nodes.drop_last()[i].spec_validate() is Ok);
                }
            }
        } else if forall|i: int| 0 <= i < nodes.len() ==> (#[trigger] nodes[i].spec_validate()) is Ok {
            assert(nodes[last].spec_validate() is Ok);
            assert forall|i: int| 0 <= i < nodes.drop_last().len() implies (#[trigger] nodes.drop_last()[i].spec_validate()) is Ok by {
                assert(nodes[i].spec_validate() is Ok);
            }
            assert(false);
        }
    }
}

// ── HyprlandConfigTree ────────────────────────────────────────────────────────

/// Top-level Hyprland configuration tree: an optional header comment and an
/// ordered list of nodes.
pub struct HyprlandConfigTree {
    pub nodes: Vec<Box<dyn HyprlandConfig>>,
    pub header_comment: Option<String>,
}

impl Default for HyprlandConfigTree {
    fn default() -> (r: Self)
        ensures
            r.nodes@.len() == 0,
            r.header_comment is None,
    {
        HyprlandConfigTree { nodes: Vec::new(), header_comment: None }
    }
}

impl HyprlandConfigTree {
    pub fn new() -> (r: Self)
        ensures
            r.nodes@.len() == 0,
            r.header_comment is None,
    {
        Self::default()
    }

    /// Attach a header comment to the top of the generated file.
    pub fn with_comment(self, comment: &str) -> (r: Self)
        ensures
            opt_view(r.header_comment) == Some(comment@),
            r.nodes == self.nodes,
    {
        HyprlandConfigTree { header_comment: Some(owned(comment)), ..self }
    }

    /// Append a node (mutable borrow, returns `&mut Self` for chaining).
    pub fn add(&mut self, node: Box<dyn HyprlandConfig>) -> (r: &mut Self)
        ensures
            r.nodes@ == old(self).nodes@.push(node),
            r.header_comment == old(self).header_comment,
            *final(self) == *final(r),
    {
        self.nodes.push(node);
        self
    }

    /// Append a node (consuming, for builder chains).
    pub fn push(self, node: Box<dyn HyprlandConfig>) -> (r: Self)
        ensures
            r.nodes@ == self.nodes@.push(node),
            r.header_comment == self.header_comment,
    {
        let mut t = self;
        t.nodes.push(node);
        t
    }

    /// Run `validate` on every child node; all error messages, in order.
    pub fn validate_all(&self) -> (r: Result<(), Vec<String>>)
        ensures
            errors_view(r) == hypr_validate_all(self.nodes@),
    {
        let errors = hypr_collect_errors(&self.nodes);
        if errors.len() == 0 {
            Ok(())
        } else {
            Err(errors)
        }
    }

    /// The header lines: each line of the comment as `# line`, indented.
    pub open spec fn spec_header(self, ctx: HyprlandRenderContext) -> Seq<Seq<char>> {
        match self.header_comment {
            Some(c) => prefixed(ctx.spec_indent() + "# "@, lines(c@)),
            None => Seq::empty(),
        }
    }
}

impl HyprlandConfig for HyprlandConfigTree {
    open spec fn spec_render(&self, ctx: HyprlandRenderContext) -> Seq<char> {
        join(self.spec_header(ctx) + hypr_nonempty_renders(self.nodes@, ctx), "\n"@)
    }

    open spec fn render_ok(&self, ctx: HyprlandRenderContext) -> bool {
        &&& hypr_all_render_ok(self.nodes@, ctx)
        &&& self.header_comment is Some ==> ctx.fits()
    }

    fn render(&self, ctx: &HyprlandRenderContext) -> (r: String) {
        let mut parts: Vec<String> = Vec::new();
        match &self.header_comment {
            Some(c) => {
                let ind = ctx.indent();
                let prefix = cat2(ind.as_str(), "# ");
                let ls = split_lines(c.as_str());
                push_prefixed(&mut parts, prefix.as_str(), &ls);
            },
            None => {},
        }
        assert(views(parts@) =~= self.spec_header(*ctx));
        push_nonempty_renders(&mut parts, &self.nodes, ctx);
        join_strings(&parts, "\n")
    }

    fn validate(&self) -> (r: Result<(), String>) {
        Ok(())
    }
}

} // verus!
