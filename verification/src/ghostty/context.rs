//! The Ghostty node family: the rendering context, the `GhosttyConfig`
//! trait and the `GhosttyConfigTree` composite.
use vstd::prelude::*;
use crate::text::{
    cat2, concat, concat_strings, ensure_newline, lines, opt_view, owned, prefixed, push_part,
    push_prefixed, result_view, split_lines, terminate_lines, terminated, views, with_newline,
};

verus! {

/// Render context passed to every Ghostty configuration node.
#[derive(Clone, Copy, Debug)]
pub struct GhosttyRenderContext {
    /// When `true`, doc comments are emitted above key-value pairs.
    pub emit_comments: bool,
}

impl Default for GhosttyRenderContext {
    fn default() -> (r: Self)
        ensures
            r == GhosttyRenderContext::spec_default(),
    {
        GhosttyRenderContext { emit_comments: true }
    }
}

impl GhosttyRenderContext {
    /// The default context: comments are emitted.
    pub open spec fn spec_default() -> Self {
        GhosttyRenderContext { emit_comments: true }
    }
}

/// Trait implemented by every Ghostty configuration node; the rendered
/// output is plain `key = value` text.
pub trait GhosttyConfig {
    /// The text this node renders to in `ctx`.
    spec fn spec_render(&self, ctx: GhosttyRenderContext) -> Seq<char>;

    /// The outcome of validating this node.
    open spec fn spec_validate(&self) -> Result<(), Seq<char>> {
        Ok(())
    }

    fn render(&self, ctx: &GhosttyRenderContext) -> (r: String)
        ensures
            r@ == self.spec_render(*ctx),
    ;

    fn generate(&self) -> (r: String)
        ensures
            r@ == self.spec_render(GhosttyRenderContext::spec_default()),
    {
        self.render(&GhosttyRenderContext::default())
    }

    fn validate(&self) -> (r: Result<(), String>)
        ensures
            result_view(r) == self.spec_validate(),
    ;
}

/// What a node contributes to a tree: nothing when it renders empty,
/// otherwise its text ending in a newline.
pub open spec fn node_chunk(s: Seq<char>) -> Seq<char> {
    if s.len() == 0 {
        Seq::empty()
    } else {
        with_newline(s)
    }
}

/// The contributions of `nodes` rendered in `ctx`, in order.
pub open spec fn node_chunks(nodes: Seq<Box<dyn GhosttyConfig>>, ctx: GhosttyRenderContext) -> Seq<
    Seq<char>,
> {
    Seq::new(nodes.len(), |i: int| node_chunk(nodes[i].spec_render(ctx)))
}

/// The outcome of validating `nodes` in order, stopping at the first error.
pub open spec fn first_error(nodes: Seq<Box<dyn GhosttyConfig>>) -> Result<(), Seq<char>>
    decreases nodes.len(),
{
    if nodes.len() == 0 {
        Ok(())
    } else {
        match first_error(nodes.drop_last()) {
            Err(e) => Err(e),
            Ok(()) => nodes[nodes.len() - 1].spec_validate(),
        }
    }
}

/// A text that is empty or ends with a newline.
pub open spec fn newline_terminated(s: Seq<char>) -> bool {
    s.len() == 0 || s.last() == '\n'
}

proof fn lemma_concat_terminated(cs: Seq<Seq<char>>)
    requires
        forall|i: int| 0 <= i < cs.len() ==> newline_terminated(#[trigger] cs[i]),
    ensures
        newline_terminated(concat(cs)),
    decreases cs.len(),
{
    if cs.len() > 0 {
        assert forall|i: int| 0 <= i < cs.drop_last().len() implies newline_terminated(
            #[trigger] cs.drop_last()[i],
        ) by {
            assert(cs.drop_last()[i] == cs[i]);
        }
        lemma_concat_terminated(cs.drop_last());
        assert(newline_terminated(cs[cs.len() - 1]));
    }
}

/// A rendered tree is empty or ends with a newline: the header block and
/// every non-empty node are newline-terminated.
pub proof fn tree_output_is_newline_terminated(tree: GhosttyConfigTree, ctx: GhosttyRenderContext)
    ensures
        newline_terminated(tree.spec_render(ctx)),
{
    let chunks = node_chunks(tree.nodes@, ctx);
    assert forall|i: int| 0 <= i < chunks.len() implies newline_terminated(#[trigger] chunks[i]) by {
        let s = tree.nodes@[i].spec_render(ctx);
        if s.len() > 0 && s.last() != '\n' {
            reveal_strlit("\n");
            assert((s + "\n"@).last() == '\n');
        }
    }
    lemma_concat_terminated(chunks);
    let body = concat(chunks);
    match tree.header_comment {
        Some(h) => {
            reveal_strlit("\n");
            let head = header_text(h@);
            assert(head.last() == '\n');
            if body.len() > 0 {
                assert((head + body).last() == body.last());
            } else {
                assert(head + body =~= head);
            }
        },
        None => {
            assert(Seq::<char>::empty() + body =~= body);
        },
    }
}

/// The header block: each line of the comment as `# line`, then an empty line.
pub open spec fn header_text(h: Seq<char>) -> Seq<char> {
    terminated(prefixed("# "@, lines(h))) + "\n"@
}

/// Top-level container that aggregates Ghostty nodes into a complete file.
pub struct GhosttyConfigTree {
    pub nodes: Vec<Box<dyn GhosttyConfig>>,
    pub header_comment: Option<String>,
}

impl Default for GhosttyConfigTree {
    fn default() -> (r: Self)
        ensures
            r.nodes@.len() == 0,
            r.header_comment is None,
    {
        GhosttyConfigTree { nodes: Vec::new(), header_comment: None }
    }
}

impl GhosttyConfigTree {
    pub fn new() -> (r: Self)
        ensures
            r.nodes@.len() == 0,
            r.header_comment is None,
    {
        Self::default()
    }

    pub fn push(&mut self, node: Box<dyn GhosttyConfig>) -> (r: &mut Self)
        ensures
            r.nodes@ == old(self).nodes@.push(node),
            r.header_comment == old(self).header_comment,
            *final(self) == *final(r),
    {
        self.nodes.push(node);
        self
    }

    pub fn with_header(self, comment: &str) -> (r: Self)
        ensures
            opt_view(r.header_comment) == Some(comment@),
            r.nodes == self.nodes,
    {
        GhosttyConfigTree { header_comment: Some(owned(comment)), ..self }
    }
}

impl GhosttyConfig for GhosttyConfigTree {
    open spec fn spec_render(&self, ctx: GhosttyRenderContext) -> Seq<char> {
        (match self.header_comment {
            Some(h) => header_text(h@),
            None => Seq::empty(),
        }) + concat(node_chunks(self.nodes@, ctx))
    }

    open spec fn spec_validate(&self) -> Result<(), Seq<char>> {
        first_error(self.nodes@)
    }

    fn render(&self, ctx: &GhosttyRenderContext) -> (r: String) {
        let head = match &self.header_comment {
            Some(h) => {
                let ls = split_lines(h.as_str());
                let mut commented: Vec<String> = Vec::new();
                push_prefixed(&mut commented, "# ", &ls);
                let t = terminate_lines(&commented);
                cat2(t.as_str(), "\n")
            },
            None => String::new(),
        };
        let mut chunks: Vec<String> = Vec::new();
        let mut i: usize = 0;
        while i < self.nodes.len()
            invariant
                i <= self.nodes@.len(),
                views(chunks@) == node_chunks(self.nodes@, *ctx).take(i as int),
            decreases self.nodes@.len() - i,
        {
            let s = self.nodes[i].render(ctx);
            if s.as_str().unicode_len() == 0 {
                push_part(&mut chunks, String::new());
            } else {
                push_part(&mut chunks, ensure_newline(s.as_str()));
            }
            assert(node_chunks(self.nodes@, *ctx).take(i + 1) =~= node_chunks(
                self.nodes@,
                *ctx,
            ).take(i as int).push(node_chunk(self.nodes@[i as int].spec_render(*ctx))));
            i = i + 1;
        }
        assert(node_chunks(self.nodes@, *ctx).take(self.nodes@.len() as int) =~= node_chunks(
            self.nodes@,
            *ctx,
        ));
        let body = concat_strings(&chunks);
        cat2(head.as_str(), body.as_str())
    }

    fn validate(&self) -> (r: Result<(), String>) {
        let mut i: usize = 0;
        while i < self.nodes.len()
            invariant
                i <= self.nodes@.len(),
                first_error(self.nodes@.take(i as int)) == Ok::<(), Seq<char>>(()),
            decreases self.nodes@.len() - i,
        {
            assert(self.nodes@.take(i + 1).drop_last() =~= self.nodes@.take(i as int));
            match self.nodes[i].validate() {
                Ok(()) => {},
                Err(e) => {
                    proof {
                        lemma_first_error_prefix(self.nodes@, i + 1);
                    }
                    return Err(e);
                },
            }
            i = i + 1;
        }
        assert(self.nodes@.take(self.nodes@.len() as int) =~= self.nodes@);
        Ok(())
    }
}

/// Validating a tree stops at the first node that fails: the outcome is
/// `Ok` exactly when every node validates, and otherwise it is the error of
/// a node all of whose predecessors validate.
pub proof fn tree_validation_reports_first_failure(nodes: Seq<Box<dyn GhosttyConfig>>)
    ensures
        first_error(nodes) is Ok <==> (forall|i: int|
            0 <= i < nodes.len() ==> (#[trigger] nodes[i].spec_validate()) is Ok),
        first_error(nodes) matches Err(e) ==> exists|k: int|
            0 <= k < nodes.len() && nodes[k].spec_validate() == Err::<(), Seq<char>>(e) && (forall|j: int|
                0 <= j < k ==> (#[trigger] nodes[j].spec_validate()) is Ok),
    decreases nodes.len(),
{
    if nodes.len() > 0 {
        let prefix = nodes.drop_last();
        let last = nodes.len() - 1;
        tree_validation_reports_first_failure(prefix);
        assert forall|i: int| 0 <= i < prefix.len() implies prefix[i] == nodes[i] by {}
        match first_error(prefix) {
            Err(e) => {
                let k = choose|k: int|
                    0 <= k < prefix.len() && prefix[k].spec_validate() == Err::<(), Seq<char>>(e) && (
                    forall|j: int| 0 <= j < k ==> (#[trigger] prefix[j].spec_validate()) is Ok);
                assert(nodes[k].spec_validate() == Err::<(), Seq<char>>(e));
                assert forall|j: int| 0 <= j < k implies (#[trigger] nodes[j].spec_validate()) is Ok by {
                    assert(prefix[j].spec_validate() is Ok);
                }
                assert(!(nodes[k].spec_validate() is Ok));
            },
            Ok(()) => {
                assert forall|j: int| 0 <= j < last implies (#[trigger] nodes[j].spec_validate()) is Ok by {
                    assert(prefix[j].spec_validate() is Ok);
                }
                match nodes[last].spec_validate() {
                    Err(e) => {
                        assert(nodes[last].spec_validate() == Err::<(), Seq<char>>(e));
                    },
                    Ok(()) => {
                        assert forall|i: int| 0 <= i < nodes.len() implies (#[trigger] nodes[i].spec_validate()) is Ok by {
                            if i < last {
                                assert(prefix[i].spec_validate() is Ok);
                            }
                        }
                    },
                }
            },
        }
    }
}

/// An error in a prefix is the first error of the whole list.
proof fn lemma_first_error_prefix(nodes: Seq<Box<dyn GhosttyConfig>>, k: int)
    requires
        0 <= k <= nodes.len(),
        first_error(nodes.take(k)) is Err,
    ensures
        first_error(nodes) == first_error(nodes.take(k)),
    decreases nodes.len() - k,
{
    if k < nodes.len() {
        assert(nodes.take(k + 1).drop_last() =~= nodes.take(k));
        lemma_first_error_prefix(nodes, k + 1);
    } else {
        assert(nodes.take(k) =~= nodes);
    }
}

} // verus!
