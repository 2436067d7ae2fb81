//! The fontconfig node family: the rendering context, the
//! `FontconfigConfig` trait and the root `FontconfigDocument`.
use vstd::prelude::*;
use crate::text::{
    cat2, join, join_strings, lemma_join_first, lemma_join_last, lemma_spaces_add, nonempty, owned, push_nonempty, push_part,
    result_view, spaces,
    spaces_string, views,
};

verus! {

/// Rendering context for fontconfig XML: indentation of nested elements.
#[derive(Debug, Clone, Copy)]
pub struct FontconfigRenderContext {
    pub indent_level: usize,
    pub indent_width: usize,
}

impl Default for FontconfigRenderContext {
    fn default() -> (r: Self)
        ensures
            r == FontconfigRenderContext::spec_default(),
    {
        FontconfigRenderContext { indent_level: 0, indent_width: 2 }
    }
}

impl FontconfigRenderContext {
    /// The default context: level 0, two spaces per level.
    pub open spec fn spec_default() -> Self {
        FontconfigRenderContext { indent_level: 0, indent_width: 2 }
    }

    /// The indentation width in characters fits in a `usize`.
    pub open spec fn fits(self) -> bool {
        self.indent_level * self.indent_width <= usize::MAX
    }

    /// This context and the one below it can both be indented.
    pub open spec fn nest_ok(self) -> bool {
        &&& self.fits()
        &&& self.indent_level < usize::MAX
        &&& self.spec_deeper().fits()
    }

    /// The indentation prefix: `indent_level * indent_width` spaces.
    pub open spec fn spec_indent(self) -> Seq<char> {
        spaces((self.indent_level * self.indent_width) as nat)
    }

    /// The same context one indentation level deeper.
    pub open spec fn spec_deeper(self) -> Self {
        FontconfigRenderContext { indent_level: (self.indent_level + 1) as usize, ..self }
    }

    pub fn indent(&self) -> (r: String)
        requires
            self.fits(),
        ensures
            r@ == self.spec_indent(),
    {
        spaces_string(self.indent_level * self.indent_width)
    }

    pub fn deeper(&self) -> (r: Self)
        requires
            self.indent_level < usize::MAX,
        ensures
            r == self.spec_deeper(),
    {
        FontconfigRenderContext { indent_level: self.indent_level + 1, ..*self }
    }
}

/// One level deeper indents by exactly one more indentation width, and
/// changes nothing else of the context.
pub proof fn deeper_adds_one_indent_width(ctx: FontconfigRenderContext)
    requires
        ctx.indent_level < usize::MAX,
        ctx.spec_deeper().fits(),
    ensures
        ctx.spec_deeper().spec_indent() == ctx.spec_indent() + spaces(ctx.indent_width as nat),
        ctx.spec_deeper().indent_level == ctx.indent_level + 1,
        ctx.spec_deeper().indent_width == ctx.indent_width,
{
    let l = ctx.indent_level as int;
    let w = ctx.indent_width as int;
    assert((l + 1) * w == l * w + w) by (nonlinear_arith);
    assert(l * w >= 0) by (nonlinear_arith)
        requires
            l >= 0,
            w >= 0,
    ;
    lemma_spaces_add((l * w) as nat, w as nat);
}

/// Central trait for all fontconfig nodes; each renders an XML fragment.
pub trait FontconfigConfig {
    /// The text this node renders to in `ctx`.
    spec fn spec_render(&self, ctx: FontconfigRenderContext) -> Seq<char>;

    /// The contexts in which rendering computes no overflowing indentation.
    open spec fn render_ok(&self, ctx: FontconfigRenderContext) -> bool {
        ctx.fits()
    }

    /// The outcome of validating this node.
    open spec fn spec_validate(&self) -> Result<(), Seq<char>> {
        Ok(())
    }

    /// Render this node into an XML string.
    fn render(&self, ctx: &FontconfigRenderContext) -> (r: String)
        requires
            self.render_ok(*ctx),
        ensures
            r@ == self.spec_render(*ctx),
    ;

    /// Render with the default context (no indentation).
    fn generate(&self) -> (r: String)
        requires
            self.render_ok(FontconfigRenderContext::spec_default()),
        ensures
            r@ == self.spec_render(FontconfigRenderContext::spec_default()),
    {
        self.render(&FontconfigRenderContext::default())
    }

    /// Pre-render validation hook.
    fn validate(&self) -> (r: Result<(), String>)
        ensures
            result_view(r) == self.spec_validate(),
    ;
}

/// Every node of `nodes` can be rendered in `ctx`.
pub open spec fn fc_all_render_ok(
    nodes: Seq<Box<dyn FontconfigConfig>>,
    ctx: FontconfigRenderContext,
) -> bool {
    forall|i: int| 0 <= i < nodes.len() ==> #[trigger] nodes[i].render_ok(ctx)
}

/// The non-empty renderings of `nodes` in `ctx`, in order.
pub open spec fn fc_nonempty_renders(
    nodes: Seq<Box<dyn FontconfigConfig>>,
    ctx: FontconfigRenderContext,
) -> Seq<Seq<char>>
    decreases nodes.len(),
{
    if nodes.len() == 0 {
        Seq::empty()
    } else {
        fc_nonempty_renders(nodes.drop_last(), ctx) + nonempty(
            nodes[nodes.len() - 1].spec_render(ctx),
        )
    }
}

/// The error messages of the nodes that fail validation, in order.
pub open spec fn fc_errors_of(nodes: Seq<Box<dyn FontconfigConfig>>) -> Seq<Seq<char>>
    decreases nodes.len(),
{
    if nodes.len() == 0 {
        Seq::empty()
    } else {
        fc_errors_of(nodes.drop_last()) + match nodes[nodes.len() - 1].spec_validate() {
            Ok(()) => Seq::<Seq<char>>::empty(),
            Err(e) => seq![e],
        }
    }
}

/// `Ok` when no node reports an error, otherwise all messages in order.
pub open spec fn fc_validate_all(nodes: Seq<Box<dyn FontconfigConfig>>) -> Result<
    (),
    Seq<Seq<char>>,
> {
    if fc_errors_of(nodes).len() == 0 {
        Ok(())
    } else {
        Err(fc_errors_of(nodes))
    }
}

/// The view of the outcome of validating a list of nodes.
pub open spec fn fc_errors_view(r: Result<(), Vec<String>>) -> Result<(), Seq<Seq<char>>> {
    match r {
        Ok(()) => Ok(()),
        Err(v) => Err(views(v@)),
    }
}

/// Validating a list of nodes succeeds exactly when every node validates;
/// otherwise it reports at least one error.
pub proof fn validate_all_ok_iff_every_node_ok(nodes: Seq<Box<dyn FontconfigConfig>>)
    ensures
        fc_validate_all(nodes) is Ok <==> (forall|i: int|
            0 <= i < nodes.len() ==> (#[trigger] nodes[i].spec_validate()) is Ok),
        fc_validate_all(nodes) matches Err(es) ==> es.len() >= 1,
    decreases nodes.len(),
{
    if nodes.len() > 0 {
        validate_all_ok_iff_every_node_ok(nodes.drop_last());
        let last = nodes.len() - 1;
        assert forall|i: int| 0 <= i < nodes.drop_last().len() implies nodes.drop_last()[i] == nodes[i] by {}
        if fc_errors_of(nodes).len() == 0 {
            assert(fc_errors_of(nodes.drop_last()).len() == 0);
            assert forall|i: int| 0 <= i < nodes.len() implies (#[trigger] nodes[i].spec_validate()) is Ok by {
                if i < last {
                    assert(nodes.drop_last()[i].spec_validate() is Ok);
                }
            }
        } else if forall|i: int| 0 <= i < nodes.len() ==> (#[trigger] nodes[i].spec_validate()) is Ok {
            assert(nodes[last].spec_validate() is Ok);
            assert forall|i: int| 0 <= i < nodes.drop_last().len() implies (#[trigger] nodes.drop_last()[i].spec_validate()) is Ok by {
                assert(nodes[i].spec_validate() is Ok);
            }
            assert(false);
        }
    }
}

/// The first lines of every document: the XML declaration and the doctype.
pub open spec fn xml_prolog() -> Seq<Seq<char>> {
    seq!["<?xml version=\"1.0\"?>"@, "<!DOCTYPE fontconfig SYSTEM \"fonts.dtd\">"@]
}

/// A document starts with the XML declaration and ends with the closing
/// `</fontconfig>` tag at the indentation of its context.
pub proof fn document_is_framed(doc: FontconfigDocument, ctx: FontconfigRenderContext)
    ensures
        ("<?xml version=\"1.0\"?>"@).is_prefix_of(doc.spec_render(ctx)),
        (ctx.spec_indent() + "</fontconfig>"@).is_suffix_of(doc.spec_render(ctx)),
{
    let parts = xml_prolog() + seq![ctx.spec_indent() + "<fontconfig>"@] + fc_nonempty_renders(
        doc.nodes@,
        ctx.spec_deeper(),
    ) + seq![ctx.spec_indent() + "</fontconfig>"@];
    assert(parts[0] == "<?xml version=\"1.0\"?>"@);
    assert(parts.last() == ctx.spec_indent() + "</fontconfig>"@);
    lemma_join_first(parts, "\n"@);
    lemma_join_last(parts, "\n"@);
}

/// Root fontconfig document: the children inside `<fontconfig>`, with the
/// standard XML declaration and doctype.
pub struct FontconfigDocument {
    pub nodes: Vec<Box<dyn FontconfigConfig>>,
}

impl Default for FontconfigDocument {
    fn default() -> (r: Self)
        ensures
            r.nodes@.len() == 0,
    {
        FontconfigDocument { nodes: Vec::new() }
    }
}

impl FontconfigDocument {
    pub fn new() -> (r: Self)
        ensures
            r.nodes@.len() == 0,
    {
        Self::default()
    }

    /// Append a node (consuming builder).
    pub fn push(self, node: Box<dyn FontconfigConfig>) -> (r: Self)
        ensures
            r.nodes@ == self.nodes@.push(node),
    {
        let mut s = self;
        s.nodes.push(node);
        s
    }

    /// Append a node (mutable borrow).
    pub fn add(&mut self, node: Box<dyn FontconfigConfig>) -> (r: &mut Self)
        ensures
            r.nodes@ == old(self).nodes@.push(node),
            *final(self) == *final(r),
    {
        self.nodes.push(node);
        self
    }

    /// Run `validate` on every child node; all error messages, in order.
    pub fn validate_all(&self) -> (r: Result<(), Vec<String>>)
        ensures
            fc_errors_view(r) == fc_validate_all(self.nodes@),
    {
        let mut errors: Vec<String> = Vec::new();
        let mut i: usize = 0;
        while i < self.nodes.len()
            invariant
                i <= self.nodes@.len(),
                views(errors@) == fc_errors_of(self.nodes@.take(i as int)),
            decreases self.nodes@.len() - i,
        {
            assert(self.nodes@.take(i + 1).drop_last() =~= self.nodes@.take(i as int));
            match self.nodes[i].validate() {
                Ok(()) => {},
                Err(e) => {
                    push_part(&mut errors, e);
                },
            }
            i = i + 1;
        }
        assert(self.nodes@.take(self.nodes@.len() as int) =~= self.nodes@);
        if errors.len() == 0 {
            Ok(())
        } else {
            Err(errors)
        }
    }
}

impl FontconfigConfig for FontconfigDocument {
    open spec fn spec_render(&self, ctx: FontconfigRenderContext) -> Seq<char> {
        join(
            xml_prolog() + seq![ctx.spec_indent() + "<fontconfig>"@] + fc_nonempty_renders(
                self.nodes@,
                ctx.spec_deeper(),
            ) + seq![ctx.spec_indent() + "</fontconfig>"@],
            "\n"@,
        )
    }

    open spec fn render_ok(&self, ctx: FontconfigRenderContext) -> bool {
        &&& ctx.fits()
        &&& ctx.indent_level < usize::MAX
        &&& fc_all_render_ok(self.nodes@, ctx.spec_deeper())
    }

    fn render(&self, ctx: &FontconfigRenderContext) -> (r: String) {
        let inner_ctx = ctx.deeper();
        let indent = ctx.indent();
        let mut parts: Vec<String> = Vec::new();
        push_part(&mut parts, owned("<?xml version=\"1.0\"?>"));
        push_part(&mut parts, owned("<!DOCTYPE fontconfig SYSTEM \"fonts.dtd\">"));
        push_part(&mut parts, cat2(indent.as_str(), "<fontconfig>"));
        let ghost start = views(parts@);
        let mut i: usize = 0;
        while i < self.nodes.len()
            invariant
                i <= self.nodes@.len(),
                inner_ctx == ctx.spec_deeper(),
                fc_all_render_ok(self.nodes@, inner_ctx),
                views(parts@) == start + fc_nonempty_renders(self.nodes@.take(i as int), inner_ctx),
            decreases self.nodes@.len() - i,
        {
            assert(self.nodes@.take(i + 1).drop_last() =~= self.nodes@.take(i as int));
            assert(self.nodes@[i as int].render_ok(inner_ctx));
            let s = self.nodes[i].render(&inner_ctx);
            push_nonempty(&mut parts, s);
            i = i + 1;
        }
        assert(self.nodes@.take(self.nodes@.len() as int) =~= self.nodes@);
        push_part(&mut parts, cat2(indent.as_str(), "</fontconfig>"));
        assert(views(parts@) =~= xml_prolog() + seq![ctx.spec_indent() + "<fontconfig>"@]
            + fc_nonempty_renders(self.nodes@, ctx.spec_deeper()) + seq![
            ctx.spec_indent() + "</fontconfig>"@,
        ]);
        join_strings(&parts, "\n")
    }

    fn validate(&self) -> (r: Result<(), String>) {
        Ok(())
    }
}

} // verus!
