//! The `<selectfont>` element: accepting or rejecting fonts.
use vstd::prelude::*;
use crate::fontconfig::context::{FontconfigConfig, FontconfigRenderContext};
use crate::fontconfig::value::{value_ok, value_xml, xml_escape, xml_escaped, FontconfigValue};
use crate::text::{cat2, cat3, cat4, is_empty_str, join, join_strings, owned, push_part, views};

verus! {

/// Whether the patterns of a block describe fonts to accept or to reject.
#[derive(Debug, Clone, Copy, PartialEq, Eq)]
pub enum SelectAction {
    /// `<acceptfont>`: only these fonts are made available.
    Accept,
    /// `<rejectfont>`: these fonts are excluded.
    Reject,
}

impl SelectAction {
    /// The element name of a block with this action.
    pub open spec fn spec_tag(self) -> Seq<char> {
        match self {
            SelectAction::Accept => "acceptfont"@,
            SelectAction::Reject => "rejectfont"@,
        }
    }

    fn tag(&self) -> (r: &'static str)
        ensures
            r@ == self.spec_tag(),
    {
        match self {
            SelectAction::Accept => "acceptfont",
            SelectAction::Reject => "rejectfont",
        }
    }
}

// ── PatternElement ────────────────────────────────────────────────────────────

/// A `<patelt>`: a font property matched by name against a value.
pub struct PatternElement {
    /// Property name.
    pub name: String,
    /// Value to match.
    pub value: FontconfigValue,
}

impl PatternElement {
    pub fn new(name: &str, value: FontconfigValue) -> (r: Self)
        ensures
            r.name@ == name@,
            r.value == value,
    {
        PatternElement { name: owned(name), value }
    }
}

/// The XML of a pattern element rendered in `ctx`.
pub open spec fn patelt_xml(pe: PatternElement, ctx: FontconfigRenderContext) -> Seq<char> {
    ctx.spec_indent() + "<patelt name=\""@ + xml_escaped(pe.name@) + "\">\n"@ + value_xml(
        pe.value,
        ctx.spec_deeper(),
    ) + "\n"@ + ctx.spec_indent() + "</patelt>"@
}

/// A pattern element can be rendered in `ctx`.
pub open spec fn patelt_ok(pe: PatternElement, ctx: FontconfigRenderContext) -> bool {
    &&& ctx.fits()
    &&& ctx.indent_level < usize::MAX
    &&& value_ok(pe.value, ctx.spec_deeper())
}

impl FontconfigConfig for PatternElement {
    open spec fn spec_render(&self, ctx: FontconfigRenderContext) -> Seq<char> {
        patelt_xml(*self, ctx)
    }

    open spec fn render_ok(&self, ctx: FontconfigRenderContext) -> bool {
        patelt_ok(*self, ctx)
    }

    open spec fn spec_validate(&self) -> Result<(), Seq<char>> {
        if self.name@.len() == 0 {
            Err("PatternElement name must not be empty"@)
        } else {
            Ok(())
        }
    }

    fn render(&self, ctx: &FontconfigRenderContext) -> (r: String) {
        let indent = ctx.indent();
        let inner_ctx = ctx.deeper();
        let e = xml_escape(self.name.as_str());
        let v = self.value.render_xml(&inner_ctx);
        let head = cat4(indent.as_str(), "<patelt name=\"", e.as_str(), "\">\n");
        let body = cat3(head.as_str(), v.as_str(), "\n");
        let r = cat3(body.as_str(), indent.as_str(), "</patelt>");
        assert(r@ =~= patelt_xml(*self, *ctx));
        r
    }

    fn validate(&self) -> (r: Result<(), String>) {
        if is_empty_str(self.name.as_str()) {
            return Err(owned("PatternElement name must not be empty"));
        }
        Ok(())
    }
}

// ── SelectPattern ─────────────────────────────────────────────────────────────

/// A `<pattern>`: a font must match all of its elements.
pub struct SelectPattern {
    /// The `<patelt>` conditions of the pattern.
    pub elements: Vec<PatternElement>,
}

/// The lines of a pattern rendered in `ctx`.
pub open spec fn pattern_lines(p: SelectPattern, ctx: FontconfigRenderContext) -> Seq<Seq<char>> {
    seq![ctx.spec_indent() + "<pattern>"@] + Seq::new(
        p.elements@.len(),
        |i: int| patelt_xml(p.elements@[i], ctx.spec_deeper()),
    ) + seq![ctx.spec_indent() + "</pattern>"@]
}

/// The XML of a pattern rendered in `ctx`.
pub open spec fn pattern_xml(p: SelectPattern, ctx: FontconfigRenderContext) -> Seq<char> {
    join(pattern_lines(p, ctx), "\n"@)
}

/// A pattern can be rendered in `ctx`.
pub open spec fn pattern_ok(p: SelectPattern, ctx: FontconfigRenderContext) -> bool {
    &&& ctx.fits()
    &&& ctx.indent_level < usize::MAX
    &&& forall|i: int| 0 <= i < p.elements@.len() ==> patelt_ok(#[trigger] p.elements@[i], ctx.spec_deeper())
}

impl Default for SelectPattern {
    fn default() -> (r: Self)
        ensures
            r.elements@.len() == 0,
    {
        SelectPattern { elements: Vec::new() }
    }
}

impl SelectPattern {
    pub fn new() -> (r: Self)
        ensures
            r.elements@.len() == 0,
    {
        Self::default()
    }

    /// Append a `<patelt>` (consuming builder).
    pub fn element(self, pe: PatternElement) -> (r: Self)
        ensures
            r.elements@ == self.elements@.push(pe),
    {
        let mut s = self;
        s.elements.push(pe);
        s
    }

    /// Append a `<patelt>` (mutable borrow).
    pub fn add_element(&mut self, pe: PatternElement) -> (r: &mut Self)
        ensures
            r.elements@ == old(self).elements@.push(pe),
            *final(self) == *final(r),
    {
        self.elements.push(pe);
        self
    }

    fn render_lines(&self, ctx: &FontconfigRenderContext) -> (r: Vec<String>)
        requires
            pattern_ok(*self, *ctx),
        ensures
            views(r@) == pattern_lines(*self, *ctx),
    {
        let indent = ctx.indent();
        let inner_ctx = ctx.deeper();
        let ghost items = Seq::new(
            self.elements@.len(),
            |i: int| patelt_xml(self.elements@[i], ctx.spec_deeper()),
        );
        let mut lines: Vec<String> = Vec::new();
        push_part(&mut lines, cat2(indent.as_str(), "<pattern>"));
        let mut i: usize = 0;
        while i < self.elements.len()
            invariant
                i <= self.elements@.len(),
                pattern_ok(*self, *ctx),
                inner_ctx == ctx.spec_deeper(),
                items == Seq::new(
                    self.elements@.len(),
                    |i: int| patelt_xml(self.elements@[i], ctx.spec_deeper()),
                ),
                views(lines@) == seq![ctx.spec_indent() + "<pattern>"@] + items.take(i as int),
            decreases self.elements@.len() - i,
        {
            assert(patelt_ok(self.elements@[i as int], inner_ctx));
            push_part(&mut lines, self.elements[i].render(&inner_ctx));
            assert(items.take(i + 1) =~= items.take(i as int).push(items[i as int]));
            i = i + 1;
        }
        assert(items.take(self.elements@.len() as int) =~= items);
        push_part(&mut lines, cat2(indent.as_str(), "</pattern>"));
        assert(views(lines@) =~= pattern_lines(*self, *ctx));
        lines
    }
}

impl FontconfigConfig for SelectPattern {
    open spec fn spec_render(&self, ctx: FontconfigRenderContext) -> Seq<char> {
        pattern_xml(*self, ctx)
    }

    open spec fn render_ok(&self, ctx: FontconfigRenderContext) -> bool {
        pattern_ok(*self, ctx)
    }

    fn render(&self, ctx: &FontconfigRenderContext) -> (r: String) {
        let lines = self.render_lines(ctx);
        join_strings(&lines, "\n")
    }

    fn validate(&self) -> (r: Result<(), String>) {
        Ok(())
    }
}

// ── Glob ─────────────────────────────────────────────────────────────────────

/// A `<glob>`: matches fonts by file path.
pub struct Glob {
    pub pattern: String,
}

/// The XML of a glob rendered in `ctx`.
pub open spec fn glob_xml(g: Glob, ctx: FontconfigRenderContext) -> Seq<char> {
    ctx.spec_indent() + "<glob>"@ + xml_escaped(g.pattern@) + "</glob>"@
}

impl Glob {
    pub fn new(pattern: &str) -> (r: Self)
        ensures
            r.pattern@ == pattern@,
    {
        Glob { pattern: owned(pattern) }
    }
}

impl FontconfigConfig for Glob {
    open spec fn spec_render(&self, ctx: FontconfigRenderContext) -> Seq<char> {
        glob_xml(*self, ctx)
    }

    open spec fn spec_validate(&self) -> Result<(), Seq<char>> {
        if self.pattern@.len() == 0 {
            Err("Glob pattern must not be empty"@)
        } else {
            Ok(())
        }
    }

    fn render(&self, ctx: &FontconfigRenderContext) -> (r: String) {
        let ind = ctx.indent();
        let e = xml_escape(self.pattern.as_str());
        cat4(ind.as_str(), "<glob>", e.as_str(), "</glob>")
    }

    fn validate(&self) -> (r: Result<(), String>) {
        if is_empty_str(self.pattern.as_str()) {
            return Err(owned("Glob pattern must not be empty"));
        }
        Ok(())
    }
}

// ── SelectFont ───────────────────────────────────────────────────────────────

/// One `<acceptfont>` or `<rejectfont>` block.
pub struct SelectBlock {
    pub action: SelectAction,
    pub patterns: Vec<SelectPattern>,
    pub globs: Vec<Glob>,
}

/// The lines of a block, where `ctx` is the context of the block's tag:
/// the tag, each pattern and each glob one level deeper, the closing tag.
pub open spec fn block_lines(b: SelectBlock, ctx: FontconfigRenderContext) -> Seq<Seq<char>> {
    let inner2 = ctx.spec_deeper();
    seq![ctx.spec_indent() + "<"@ + b.action.spec_tag() + ">"@] + Seq::new(
        b.patterns@.len(),
        |i: int| pattern_xml(b.patterns@[i], inner2),
    ) + Seq::new(b.globs@.len(), |i: int| glob_xml(b.globs@[i], inner2)) + seq![
        ctx.spec_indent() + "</"@ + b.action.spec_tag() + ">"@,
    ]
}

/// The lines of all blocks, in order.
pub open spec fn blocks_lines(bs: Seq<SelectBlock>, ctx: FontconfigRenderContext) -> Seq<Seq<char>>
    decreases bs.len(),
{
    if bs.len() == 0 {
        Seq::empty()
    } else {
        blocks_lines(bs.drop_last(), ctx) + block_lines(bs.last(), ctx)
    }
}

/// The patterns of a block can be rendered one level below `ctx`.
pub open spec fn block_ok(b: SelectBlock, ctx: FontconfigRenderContext) -> bool {
    forall|i: int| 0 <= i < b.patterns@.len() ==> pattern_ok(#[trigger] b.patterns@[i], ctx.spec_deeper())
}

/// A complete `<selectfont>` element of accept/reject blocks.
pub struct SelectFont {
    pub blocks: Vec<SelectBlock>,
}

impl Default for SelectFont {
    fn default() -> (r: Self)
        ensures
            r.blocks@.len() == 0,
    {
        SelectFont { blocks: Vec::new() }
    }
}

fn render_block_lines(b: &SelectBlock, ctx: &FontconfigRenderContext, out: &mut Vec<String>)
    requires
        ctx.nest_ok(),
        ctx.spec_deeper().fits(),
        block_ok(*b, *ctx),
    ensures
        views(final(out)@) == views(old(out)@) + block_lines(*b, *ctx),
{
    let inner = ctx.indent();
    let inner2_ctx = ctx.deeper();
    let tag = b.action.tag();
    let ghost start = views(out@);
    push_part(out, cat4(inner.as_str(), "<", tag, ">"));
    let ghost pats = Seq::new(
        b.patterns@.len(),
        |i: int| pattern_xml(b.patterns@[i], ctx.spec_deeper()),
    );
    let ghost globs = Seq::new(b.globs@.len(), |i: int| glob_xml(b.globs@[i], ctx.spec_deeper()));
    let mut i: usize = 0;
    while i < b.patterns.len()
        invariant
            i <= b.patterns@.len(),
            block_ok(*b, *ctx),
            inner2_ctx == ctx.spec_deeper(),
            pats == Seq::new(
                b.patterns@.len(),
                |i: int| pattern_xml(b.patterns@[i], ctx.spec_deeper()),
            ),
            views(out@) == start + seq![inner@ + "<"@ + tag@ + ">"@] + pats.take(i as int),
        decreases b.patterns@.len() - i,
    {
        assert(pattern_ok(b.patterns@[i as int], inner2_ctx));
        push_part(out, b.patterns[i].render(&inner2_ctx));
        assert(pats.take(i + 1) =~= pats.take(i as int).push(pats[i as int]));
        i = i + 1;
    }
    assert(pats.take(b.patterns@.len() as int) =~= pats);
    let mut j: usize = 0;
    while j < b.globs.len()
        invariant
            j <= b.globs@.len(),
            inner2_ctx == ctx.spec_deeper(),
            inner2_ctx.fits(),
            globs == Seq::new(b.globs@.len(), |i: int| glob_xml(b.globs@[i], ctx.spec_deeper())),
            views(out@) == start + seq![inner@ + "<"@ + tag@ + ">"@] + pats + globs.take(j as int),
        decreases b.globs@.len() - j,
    {
        push_part(out, b.globs[j].render(&inner2_ctx));
        assert(globs.take(j + 1) =~= globs.take(j as int).push(globs[j as int]));
        j = j + 1;
    }
    assert(globs.take(b.globs@.len() as int) =~= globs);
    push_part(out, cat4(inner.as_str(), "</", tag, ">"));
    assert(views(out@) =~= start + block_lines(*b, *ctx));
}

impl SelectFont {
    pub fn new() -> (r: Self)
        ensures
            r.blocks@.len() == 0,
    {
        Self::default()
    }

    /// Add a block with the given action, patterns and globs (consuming builder).
    pub fn block(self, action: SelectAction, patterns: Vec<SelectPattern>, globs: Vec<Glob>) -> (r:
        Self)
        ensures
            r.blocks@ == self.blocks@.push(SelectBlock { action, patterns, globs }),
    {
        let mut s = self;
        s.blocks.push(SelectBlock { action, patterns, globs });
        s
    }

    /// Add a block (mutable borrow).
    pub fn add_block(
        &mut self,
        action: SelectAction,
        patterns: Vec<SelectPattern>,
        globs: Vec<Glob>,
    ) -> (r: &mut Self)
        ensures
            r.blocks@ == old(self).blocks@.push(SelectBlock { action, patterns, globs }),
            *final(self) == *final(r),
    {
        self.blocks.push(SelectBlock { action, patterns, globs });
        self
    }
}

impl FontconfigConfig for SelectFont {
    open spec fn spec_render(&self, ctx: FontconfigRenderContext) -> Seq<char> {
        join(
            seq![ctx.spec_indent() + "<selectfont>"@] + blocks_lines(self.blocks@, ctx.spec_deeper())
                + seq![ctx.spec_indent() + "</selectfont>"@],
            "\n"@,
        )
    }

    open spec fn render_ok(&self, ctx: FontconfigRenderContext) -> bool {
        &&& ctx.nest_ok()
        &&& ctx.spec_deeper().nest_ok()
        &&& forall|i: int| 0 <= i < self.blocks@.len() ==> block_ok(#[trigger] self.blocks@[i], ctx.spec_deeper())
    }

    fn render(&self, ctx: &FontconfigRenderContext) -> (r: String) {
        let indent = ctx.indent();
        let inner_ctx = ctx.deeper();
        let mut lines: Vec<String> = Vec::new();
        push_part(&mut lines, cat2(indent.as_str(), "<selectfont>"));
        let ghost start = views(lines@);
        let mut i: usize = 0;
        while i < self.blocks.len()
            invariant
                i <= self.blocks@.len(),
                self.render_ok(*ctx),
                inner_ctx == ctx.spec_deeper(),
                views(lines@) == start + blocks_lines(self.blocks@.take(i as int), inner_ctx),
            decreases self.blocks@.len() - i,
        {
            assert(self.blocks@.take(i + 1).drop_last() =~= self.blocks@.take(i as int));
            assert(block_ok(self.blocks@[i as int], inner_ctx));
            render_block_lines(&self.blocks[i], &inner_ctx, &mut lines);
            i = i + 1;
        }
        assert(self.blocks@.take(self.blocks@.len() as int) =~= self.blocks@);
        push_part(&mut lines, cat2(indent.as_str(), "</selectfont>"));
        assert(views(lines@) =~= seq![ctx.spec_indent() + "<selectfont>"@] + blocks_lines(
            self.blocks@,
            ctx.spec_deeper(),
        ) + seq![ctx.spec_indent() + "</selectfont>"@]);
        join_strings(&lines, "\n")
    }

    fn validate(&self) -> (r: Result<(), String>) {
        Ok(())
    }
}

} // verus!
