//! The fish composite node.
use vstd::prelude::*;
use crate::base::{
    all_render_ok, all_result_view, children_lines, push_children_lines, spec_validate_all,
    validate_nodes, Config, RenderContext,
};
use crate::text::{cat3, join, join_strings, opt_seq, opt_view, owned, push_part, views};

verus! {

/// A composite node that holds an ordered list of fish config nodes.
pub struct FishConfigTree {
    pub nodes: Vec<Box<dyn Config>>,
    pub comment: Option<String>,
}

impl Default for FishConfigTree {
    fn default() -> (r: Self)
        ensures
            r.nodes@.len() == 0,
            r.comment is None,
    {
        FishConfigTree { nodes: Vec::new(), comment: None }
    }
}

impl FishConfigTree {
    pub fn new() -> (r: Self)
        ensures
            r.nodes@.len() == 0,
            r.comment is None,
    {
        Self::default()
    }

    pub fn with_comment(self, c: &str) -> (r: Self)
        ensures
            opt_view(r.comment) == Some(c@),
            r.nodes == self.nodes,
    {
        FishConfigTree { comment: Some(owned(c)), ..self }
    }

    pub fn add(self, node: Box<dyn Config>) -> (r: Self)
        ensures
            r.nodes@ == self.nodes@.push(node),
            r.comment == self.comment,
    {
        let mut s = self;
        s.nodes.push(node);
        s
    }

    pub fn push_node(&mut self, node: Box<dyn Config>) -> (r: &mut Self)
        ensures
            r.nodes@ == old(self).nodes@.push(node),
            r.comment == old(self).comment,
            *final(self) == *final(r),
    {
        self.nodes.push(node);
        self
    }

    /// Validate all children before rendering.
    pub fn validate_all(&self) -> (r: Result<(), Vec<String>>)
        ensures
            all_result_view(r) == spec_validate_all(self.nodes@),
    {
        validate_nodes(&self.nodes)
    }

    /// The lines of the tree, before joining.
    pub open spec fn spec_lines(self, ctx: RenderContext) -> Seq<Seq<char>> {
        opt_seq(
            match self.comment {
                Some(c) => Some(ctx.spec_indent() + "# "@ + c@),
                None => None,
            },
        ) + children_lines(self.nodes@, ctx, "# "@)
    }
}

impl Config for FishConfigTree {
    open spec fn spec_render(&self, ctx: RenderContext) -> Seq<char> {
        join(self.spec_lines(ctx), "\n"@)
    }

    open spec fn render_ok(&self, ctx: RenderContext) -> bool {
        &&& all_render_ok(self.nodes@, ctx)
        &&& (self.comment is Some || ctx.emit_doc_comments) ==> ctx.fits()
    }

    fn render(&self, ctx: &RenderContext) -> (r: String) {
        let mut parts: Vec<String> = Vec::new();
        match &self.comment {
            Some(c) => {
                let ind = ctx.indent();
                push_part(&mut parts, cat3(ind.as_str(), "# ", c.as_str()));
            },
            None => {},
        }
        push_children_lines(&mut parts, &self.nodes, ctx, "# ");
        assert(views(parts@) =~= self.spec_lines(*ctx));
        join_strings(&parts, "\n")
    }

    fn doc_comment(&self) -> (r: Option<&str>) {
        None
    }

    fn validate(&self) -> (r: Result<(), String>) {
        Ok(())
    }
}

/// Adding a node by value and pushing it in place build the same tree: the
/// same nodes in the same order and the same comment, hence the same text,
/// the same render conditions and the same validation outcome in every
/// context.
pub proof fn add_matches_push_node(
    before: FishConfigTree,
    node: Box<dyn Config>,
    added: FishConfigTree,
    pushed: FishConfigTree,
    ctx: RenderContext,
)
    requires
        added.nodes@ == before.nodes@.push(node),
        added.comment == before.comment,
        pushed.nodes@ == before.nodes@.push(node),
        pushed.comment == before.comment,
    ensures
        added.nodes@ == pushed.nodes@,
        added.comment == pushed.comment,
        added.spec_render(ctx) == pushed.spec_render(ctx),
        added.render_ok(ctx) == pushed.render_ok(ctx),
        spec_validate_all(added.nodes@) == spec_validate_all(pushed.nodes@),
{
}

} // verus!
