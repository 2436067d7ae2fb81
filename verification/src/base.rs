//! The Neovim/fish node family: the rendering context, the `Config` trait
//! every node implements, and the `ConfigTree` composite.
use vstd::prelude::*;
use crate::text::{
    cat3, join, join_strings, lemma_spaces_add, opt_seq, opt_str_view, opt_view, owned, push_part,
    result_view, spaces,
    spaces_string, views,
};

verus! {

/// Rendering context passed during generation (controls indentation, doc comments, etc.)
#[derive(Debug, Clone, Copy)]
pub struct RenderContext {
    pub indent_level: usize,
    pub indent_width: usize,
    pub emit_doc_comments: bool,
}

impl Default for RenderContext {
    fn default() -> (r: Self)
        ensures
            r == RenderContext::spec_default(),
    {
        RenderContext { indent_level: 0, indent_width: 2, emit_doc_comments: false }
    }
}

impl RenderContext {
    /// The default context: level 0, two spaces per level, no doc comments.
    pub open spec fn spec_default() -> Self {
        RenderContext { indent_level: 0, indent_width: 2, emit_doc_comments: false }
    }

    /// The indentation width in characters fits in a `usize`.
    pub open spec fn fits(self) -> bool {
        self.indent_level * self.indent_width <= usize::MAX
    }

    /// The context one level deeper can be formed and its indentation fits.
    pub open spec fn deeper_fits(self) -> bool {
        self.indent_level < usize::MAX && self.spec_deeper().fits()
    }

    /// The indentation prefix: `indent_level * indent_width` spaces.
    pub open spec fn spec_indent(self) -> Seq<char> {
        spaces((self.indent_level * self.indent_width) as nat)
    }

    /// The same context one indentation level deeper.
    pub open spec fn spec_deeper(self) -> Self {
        RenderContext { indent_level: (self.indent_level + 1) as usize, ..self }
    }

    pub fn indent(&self) -> (r: String)
        requires
            self.fits(),
        ensures
            r@ == self.spec_indent(),
    {
        spaces_string(self.indent_level * self.indent_width)
    }

    pub fn deeper(&self) -> (r: Self)
        requires
            self.indent_level < usize::MAX,
        ensures
            r == self.spec_deeper(),
    {
        RenderContext { indent_level: self.indent_level + 1, ..*self }
    }
}

/// One level deeper indents by exactly one more indentation width, and
/// changes nothing else of the context.
pub proof fn deeper_adds_one_indent_width(ctx: RenderContext)
    requires
        ctx.indent_level < usize::MAX,
        ctx.spec_deeper().fits(),
    ensures
        ctx.spec_deeper().spec_indent() == ctx.spec_indent() + spaces(ctx.indent_width as nat),
        ctx.spec_deeper().indent_level == ctx.indent_level + 1,
        ctx.spec_deeper().indent_width == ctx.indent_width,
{
    let l = ctx.indent_level as int;
    let w = ctx.indent_width as int;
    assert((l + 1) * w == l * w + w) by (nonlinear_arith);
    assert(l * w >= 0) by (nonlinear_arith)
        requires
            l >= 0,
            w >= 0,
    ;
    lemma_spaces_add((l * w) as nat, w as nat);
}

/// The central trait every configuration node must implement.
pub trait Config {
    /// The text this node renders to in `ctx`.
    spec fn spec_render(&self, ctx: RenderContext) -> Seq<char>;

    /// The contexts in which rendering computes no overflowing indentation.
    open spec fn render_ok(&self, ctx: RenderContext) -> bool {
        ctx.fits()
    }

    /// The doc-comment header of this node, if any.
    open spec fn spec_doc(&self) -> Option<Seq<char>> {
        None
    }

    /// The outcome of validating this node.
    open spec fn spec_validate(&self) -> Result<(), Seq<char>> {
        Ok(())
    }

    /// Render this node into a Lua string using the provided context.
    fn render(&self, ctx: &RenderContext) -> (r: String)
        requires
            self.render_ok(*ctx),
        ensures
            r@ == self.spec_render(*ctx),
    ;

    /// Convenience: render with default context.
    fn generate(&self) -> (r: String)
        requires
            self.render_ok(RenderContext::spec_default()),
        ensures
            r@ == self.spec_render(RenderContext::spec_default()),
    {
        self.render(&RenderContext::default())
    }

    /// Optional doc-comment header for this node.
    fn doc_comment(&self) -> (r: Option<&str>)
        ensures
            opt_str_view(r) == self.spec_doc(),
    ;

    /// Optional validation that runs before rendering.
    /// Returns Ok(()) or a descriptive error string.
    fn validate(&self) -> (r: Result<(), String>)
        ensures
            result_view(r) == self.spec_validate(),
    ;
}

// ── Helpers over node lists ───────────────────────────────────────────────────

/// Every node of `nodes` can be rendered in `ctx`.
pub open spec fn all_render_ok(nodes: Seq<Box<dyn Config>>, ctx: RenderContext) -> bool {
    forall|i: int| 0 <= i < nodes.len() ==> #[trigger] nodes[i].render_ok(ctx)
}

/// The renderings of `nodes` in `ctx`, in order.
pub open spec fn renders(nodes: Seq<Box<dyn Config>>, ctx: RenderContext) -> Seq<Seq<char>> {
    Seq::new(nodes.len(), |i: int| nodes[i].spec_render(ctx))
}

/// The error messages of the nodes that fail validation, in order.
pub open spec fn errors_of(nodes: Seq<Box<dyn Config>>) -> Seq<Seq<char>>
    decreases nodes.len(),
{
    if nodes.len() == 0 {
        Seq::empty()
    } else {
        errors_of(nodes.drop_last()) + match nodes.last().spec_validate() {
            Ok(()) => Seq::<Seq<char>>::empty(),
            Err(e) => seq![e],
        }
    }
}

/// Appends the rendering of every node of `nodes` to `out`.
pub fn push_renders(out: &mut Vec<String>, nodes: &Vec<Box<dyn Config>>, ctx: &RenderContext)
    requires
        all_render_ok(nodes@, *ctx),
    ensures
        views(final(out)@) == views(old(out)@) + renders(nodes@, *ctx),
{
    let ghost start = views(out@);
    let mut i: usize = 0;
    while i < nodes.len()
        invariant
            i <= nodes@.len(),
            all_render_ok(nodes@, *ctx),
            views(out@) == start + renders(nodes@.take(i as int), *ctx),
        decreases nodes@.len() - i,
    {
        assert(nodes@[i as int].render_ok(*ctx));
        let r = nodes[i].render(ctx);
        push_part(out, r);
        assert(renders(nodes@.take(i + 1), *ctx) =~= renders(nodes@.take(i as int), *ctx).push(
            nodes@[i as int].spec_render(*ctx),
        ));
        i = i + 1;
    }
    assert(nodes@.take(nodes@.len() as int) =~= nodes@);
}

/// Validates every node, collecting the error messages in order.
fn collect_errors(nodes: &Vec<Box<dyn Config>>) -> (r: Vec<String>)
    ensures
        views(r@) == errors_of(nodes@),
{
    let mut errors: Vec<String> = Vec::new();
    let mut i: usize = 0;
    while i < nodes.len()
        invariant
            i <= nodes@.len(),
            views(errors@) == errors_of(nodes@.take(i as int)),
        decreases nodes@.len() - i,
    {
        assert(nodes@.take(i + 1).drop_last() =~= nodes@.take(i as int));
        match nodes[i].validate() {
            Ok(()) => {},
            Err(e) => {
                push_part(&mut errors, e);
            },
        }
        i = i + 1;
    }
    assert(nodes@.take(nodes@.len() as int) =~= nodes@);
    errors
}

/// `Ok` when no node reports an error, otherwise all messages in order.
pub open spec fn spec_validate_all(nodes: Seq<Box<dyn Config>>) -> Result<(), Seq<Seq<char>>> {
    if errors_of(nodes).len() == 0 {
        Ok(())
    } else {
        Err(errors_of(nodes))
    }
}

/// The view of the outcome of validating a list of nodes.
pub open spec fn all_result_view(r: Result<(), Vec<String>>) -> Result<(), Seq<Seq<char>>> {
    match r {
        Ok(()) => Ok(()),
        Err(v) => Err(views(v@)),
    }
}

/// Validates every node of `nodes`.
pub fn validate_nodes(nodes: &Vec<Box<dyn Config>>) -> (r: Result<(), Vec<String>>)
    ensures
        all_result_view(r) == spec_validate_all(nodes@),
{
    let errors = collect_errors(nodes);
    if errors.len() == 0 {
        Ok(())
    } else {
        Err(errors)
    }
}

/// Validating a list of nodes succeeds exactly when every node validates;
/// otherwise it reports at least one error.
pub proof fn validate_all_ok_iff_every_node_ok(nodes: Seq<Box<dyn Config>>)
    ensures
        spec_validate_all(nodes) is Ok <==> (forall|i: int|
            0 <= i < nodes.len() ==> (#[trigger] nodes[i].spec_validate()) is Ok),
        spec_validate_all(nodes) matches Err(es) ==> es.len() >= 1,
    decreases nodes.len(),
{
    if nodes.len() > 0 {
        validate_all_ok_iff_every_node_ok(nodes.drop_last());
        let last = nodes.len() - 1;
        assert forall|i: int| 0 <= i < nodes.drop_last().len() implies nodes.drop_last()[i] == nodes[i] by {}
        if errors_of(nodes).len() == 0 {
            assert(errors_of(nodes.drop_last()).len() == 0);
            assert forall|i: int| 0 <= i < nodes.len() implies (#[trigger] nodes[i].spec_validate()) is Ok by {
                if i < last {
                    assert(nodes.drop_last()[i].spec_validate() is Ok);
                }
            }
        } else if forall|i: int| 0 <= i < nodes.len() ==> (#[trigger] nodes[i].spec_validate()) is Ok {
            assert(nodes[last].spec_validate() is Ok);
            assert forall|i: int| 0 <= i < nodes.drop_last().len() implies (#[trigger] nodes.drop_last()[i].spec_validate()) is Ok by {
                assert(nodes[i].spec_validate() is Ok);
            }
            assert(false);
        }
    }
}

// ── ConfigTree ────────────────────────────────────────────────────────────────

/// The lines one child contributes to a tree: its doc comment (with
/// `prefix`) when doc comments are emitted, then its rendering.
pub open spec fn child_lines(
    nodes: Seq<Box<dyn Config>>,
    i: int,
    ctx: RenderContext,
    prefix: Seq<char>,
) -> Seq<Seq<char>> {
    (if ctx.emit_doc_comments && nodes[i].spec_doc() is Some {
        seq![ctx.spec_indent() + prefix + nodes[i].spec_doc()->0]
    } else {
        Seq::empty()
    }) + seq![nodes[i].spec_render(ctx)]
}

/// The lines all children contribute to a tree, in order.
pub open spec fn children_lines(nodes: Seq<Box<dyn Config>>, ctx: RenderContext, prefix: Seq<char>) -> Seq<
    Seq<char>,
>
    decreases nodes.len(),
{
    if nodes.len() == 0 {
        Seq::empty()
    } else {
        children_lines(nodes.drop_last(), ctx, prefix) + child_lines(
            nodes,
            nodes.len() - 1,
            ctx,
            prefix,
        )
    }
}

/// Appends, for each child, its doc-comment line (when emitted) and its rendering.
pub fn push_children_lines(
    out: &mut Vec<String>,
    nodes: &Vec<Box<dyn Config>>,
    ctx: &RenderContext,
    prefix: &str,
)
    requires
        all_render_ok(nodes@, *ctx),
        ctx.emit_doc_comments ==> ctx.fits(),
    ensures
        views(final(out)@) == views(old(out)@) + children_lines(nodes@, *ctx, prefix@),
{
    let ghost start = views(out@);
    let mut i: usize = 0;
    while i < nodes.len()
        invariant
            i <= nodes@.len(),
            all_render_ok(nodes@, *ctx),
            ctx.emit_doc_comments ==> ctx.fits(),
            views(out@) == start + children_lines(nodes@.take(i as int), *ctx, prefix@),
        decreases nodes@.len() - i,
    {
        assert(nodes@.take(i + 1).drop_last() =~= nodes@.take(i as int));
        let ghost before = views(out@);
        let ghost doc_lines: Seq<Seq<char>> = if ctx.emit_doc_comments
            && nodes@[i as int].spec_doc() is Some {
            seq![ctx.spec_indent() + prefix@ + nodes@[i as int].spec_doc()->0]
        } else {
            Seq::empty()
        };
        if ctx.emit_doc_comments {
            match nodes[i].doc_comment() {
                Some(doc) => {
                    let ind = ctx.indent();
                    push_part(out, cat3(ind.as_str(), prefix, doc));
                },
                None => {},
            }
        }
        assert(views(out@) =~= before + doc_lines);
        assert(nodes@[i as int].render_ok(*ctx));
        let r = nodes[i].render(ctx);
        push_part(out, r);
        assert(child_lines(nodes@.take(i + 1), i as int, *ctx, prefix@) =~= doc_lines + seq![
            nodes@[i as int].spec_render(*ctx),
        ]);
        assert(views(out@) =~= before + child_lines(nodes@.take(i + 1), i as int, *ctx, prefix@));
        i = i + 1;
    }
    assert(nodes@.take(nodes@.len() as int) =~= nodes@);
}

/// A composite node that owns an ordered list of child config nodes.
/// Used to represent an entire init.lua or a logical section of it.
pub struct ConfigTree {
    pub nodes: Vec<Box<dyn Config>>,
    pub section_comment: Option<String>,
}

impl ConfigTree {
    pub fn new() -> (r: Self)
        ensures
            r.nodes@.len() == 0,
            r.section_comment is None,
    {
        ConfigTree { nodes: Vec::new(), section_comment: None }
    }

    pub fn with_comment(self, comment: &str) -> (r: Self)
        ensures
            opt_view(r.section_comment) == Some(comment@),
            r.nodes == self.nodes,
    {
        ConfigTree { section_comment: Some(owned(comment)), ..self }
    }

    pub fn add(&mut self, node: Box<dyn Config>) -> (r: &mut Self)
        ensures
            r.nodes@ == old(self).nodes@.push(node),
            r.section_comment == old(self).section_comment,
            *final(self) == *final(r),
    {
        self.nodes.push(node);
        self
    }

    pub fn push(self, node: Box<dyn Config>) -> (r: Self)
        ensures
            r.nodes@ == self.nodes@.push(node),
            r.section_comment == self.section_comment,
    {
        let mut t = self;
        t.nodes.push(node);
        t
    }

    /// Validate all children before rendering.
    pub fn validate_all(&self) -> (r: Result<(), Vec<String>>)
        ensures
            all_result_view(r) == spec_validate_all(self.nodes@),
    {
        validate_nodes(&self.nodes)
    }
}

impl Config for ConfigTree {
    open spec fn spec_render(&self, ctx: RenderContext) -> Seq<char> {
        join(
            opt_seq(
                match self.section_comment {
                    Some(c) => Some(ctx.spec_indent() + "-- "@ + c@),
                    None => None,
                },
            ) + children_lines(self.nodes@, ctx, "--- "@),
            "\n"@,
        )
    }

    open spec fn render_ok(&self, ctx: RenderContext) -> bool {
        &&& all_render_ok(self.nodes@, ctx)
        &&& (self.section_comment is Some || ctx.emit_doc_comments) ==> ctx.fits()
    }

    fn render(&self, ctx: &RenderContext) -> (r: String) {
        let mut parts: Vec<String> = Vec::new();
        match &self.section_comment {
            Some(c) => {
                let ind = ctx.indent();
                push_part(&mut parts, cat3(ind.as_str(), "-- ", c.as_str()));
            },
            None => {},
        }
        push_children_lines(&mut parts, &self.nodes, ctx, "--- ");
        assert(views(parts@) =~= opt_seq(
            match self.section_comment {
                Some(c) => Some(ctx.spec_indent() + "-- "@ + c@),
                None => None,
            },
        ) + children_lines(self.nodes@, *ctx, "--- "@));
        join_strings(&parts, "\n")
    }

    fn doc_comment(&self) -> (r: Option<&str>) {
        None
    }

    fn validate(&self) -> (r: Result<(), String>) {
        Ok(())
    }
}

/// Adding a node in place and pushing it by value build the same tree: the
/// same nodes in the same order and the same comment, hence the same text,
/// the same render conditions and the same validation outcome in every
/// context.
pub proof fn push_matches_add(
    before: ConfigTree,
    node: Box<dyn Config>,
    pushed: ConfigTree,
    added: ConfigTree,
    ctx: RenderContext,
)
    requires
        pushed.nodes@ == before.nodes@.push(node),
        pushed.section_comment == before.section_comment,
        added.nodes@ == before.nodes@.push(node),
        added.section_comment == before.section_comment,
    ensures
        pushed.nodes@ == added.nodes@,
        pushed.section_comment == added.section_comment,
        pushed.spec_render(ctx) == added.spec_render(ctx),
        pushed.render_ok(ctx) == added.render_ok(ctx),
        spec_validate_all(pushed.nodes@) == spec_validate_all(added.nodes@),
{
}

} // verus!
