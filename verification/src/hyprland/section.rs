//! Named section blocks (`general { … }`) and raw Hyprland text.
use vstd::prelude::*;
use crate::hyprland::context::{HyprlandConfig, HyprlandRenderContext};
use crate::text::{
    append_parts, cat2, cat3, cat4, join, join_strings, lemma_join_first, lemma_join_last, lines,
    owned, prefixed, push_part, push_prefixed,
    split_lines, views,
};

verus! {

/// A single key-value pair inside a [`Section`].
pub struct KeywordPair {
    pub key: String,
    pub value: String,
}

impl KeywordPair {
    pub fn new(key: &str, value: &str) -> (r: Self)
        ensures
            r.key@ == key@,
            r.value@ == value@,
    {
        KeywordPair { key: owned(key), value: owned(value) }
    }
}

/// An entry that can appear inside a [`Section`].
pub enum SectionEntry {
    Pair(KeywordPair),
    Nested(Section),
    Comment(String),
    Blank,
}

/// A Hyprland configuration section block, e.g. `general { ... }`.
pub struct Section {
    pub name: String,
    pub entries: Vec<SectionEntry>,
}

/// The line (or block, for a nested section) an entry renders to, where
/// `ctx` is the context of the enclosing section.
pub open spec fn entry_text(e: SectionEntry, ctx: HyprlandRenderContext) -> Seq<char>
    decreases e, 0int,
{
    let inner = ctx.spec_deeper();
    match e {
        SectionEntry::Pair(kv) => inner.spec_indent() + kv.key@ + " = "@ + kv.value@,
        SectionEntry::Nested(sub) => section_text(sub, inner),
        SectionEntry::Comment(c) => inner.spec_indent() + "# "@ + c@,
        SectionEntry::Blank => Seq::empty(),
    }
}

/// The texts of a list of entries of a section rendered in `ctx`.
pub open spec fn entries_text(s: Seq<SectionEntry>, ctx: HyprlandRenderContext) -> Seq<Seq<char>>
    decreases s, 1int,
{
    if s.len() == 0 {
        Seq::empty()
    } else {
        entries_text(s.subrange(0, s.len() - 1), ctx) + seq![entry_text(s[s.len() - 1], ctx)]
    }
}

/// A block `name { … }` rendered in `ctx` with the given inner lines.
pub open spec fn block_text(ctx: HyprlandRenderContext, name: Seq<char>, inner: Seq<Seq<char>>) -> Seq<
    char,
> {
    join(seq![ctx.spec_indent() + name + " {"@] + inner + seq![ctx.spec_indent() + "}"@], "\n"@)
}

/// The text of a section rendered in `ctx`: its opening line, its entries
/// one level deeper, and its closing brace.
pub open spec fn section_text(sec: Section, ctx: HyprlandRenderContext) -> Seq<char>
    decreases sec, 2int,
{
    block_text(ctx, sec.name@, entries_text(sec.entries@, ctx))
}

/// Every block opens with `name {` and closes with `}`, both at the
/// indentation of its context.
pub proof fn block_is_braced(ctx: HyprlandRenderContext, name: Seq<char>, inner: Seq<Seq<char>>)
    ensures
        (ctx.spec_indent() + name + " {"@).is_prefix_of(block_text(ctx, name, inner)),
        (ctx.spec_indent() + "}"@).is_suffix_of(block_text(ctx, name, inner)),
{
    let parts = seq![ctx.spec_indent() + name + " {"@] + inner + seq![ctx.spec_indent() + "}"@];
    assert(parts[0] == ctx.spec_indent() + name + " {"@);
    assert(parts.last() == ctx.spec_indent() + "}"@);
    lemma_join_first(parts, "\n"@);
    lemma_join_last(parts, "\n"@);
}

/// A section renders as a braced block named after it.
pub proof fn section_is_braced(sec: Section, ctx: HyprlandRenderContext)
    ensures
        (ctx.spec_indent() + sec.name@ + " {"@).is_prefix_of(section_text(sec, ctx)),
        (ctx.spec_indent() + "}"@).is_suffix_of(section_text(sec, ctx)),
{
    block_is_braced(ctx, sec.name@, entries_text(sec.entries@, ctx));
}

/// A context in which a block and the lines inside it can be indented.
pub open spec fn block_ok(ctx: HyprlandRenderContext) -> bool {
    &&& ctx.fits()
    &&& ctx.indent_level < usize::MAX
    &&& ctx.spec_deeper().fits()
}

/// Renders `name { … }` in `ctx` around the given (already indented) inner lines.
pub fn render_block(ctx: &HyprlandRenderContext, name: &str, inner: &Vec<String>) -> (r: String)
    requires
        ctx.fits(),
    ensures
        r@ == block_text(*ctx, name@, views(inner@)),
{
    let indent = ctx.indent();
    let mut lines: Vec<String> = Vec::new();
    push_part(&mut lines, cat3(indent.as_str(), name, " {"));
    append_parts(&mut lines, inner.clone());
    push_part(&mut lines, cat2(indent.as_str(), "}"));
    assert(views(lines@) =~= seq![ctx.spec_indent() + name@ + " {"@] + views(inner@) + seq![
        ctx.spec_indent() + "}"@,
    ]);
    join_strings(&lines, "\n")
}

/// Renders `name { … }` in `ctx` with each of `pairs` (`key = value` texts)
/// on its own line one level deeper.
pub fn render_pairs_block(ctx: &HyprlandRenderContext, name: &str, pairs: &Vec<String>) -> (r: String)
    requires
        block_ok(*ctx),
    ensures
        r@ == block_text(*ctx, name@, prefixed(ctx.spec_deeper().spec_indent(), views(pairs@))),
{
    let indent = ctx.indent();
    let inner = ctx.deeper().indent();
    let mut lines: Vec<String> = Vec::new();
    push_part(&mut lines, cat3(indent.as_str(), name, " {"));
    push_prefixed(&mut lines, inner.as_str(), pairs);
    push_part(&mut lines, cat2(indent.as_str(), "}"));
    assert(views(lines@) =~= seq![ctx.spec_indent() + name@ + " {"@] + prefixed(
        ctx.spec_deeper().spec_indent(),
        views(pairs@),
    ) + seq![ctx.spec_indent() + "}"@]);
    join_strings(&lines, "\n")
}

/// An entry can be rendered inside a section rendered in `ctx`.
pub open spec fn entry_ok(e: SectionEntry, ctx: HyprlandRenderContext) -> bool
    decreases e, 0int,
{
    match e {
        SectionEntry::Nested(sub) => section_ok(sub, ctx.spec_deeper()),
        _ => true,
    }
}

/// Every entry of a list can be rendered inside a section rendered in `ctx`.
pub open spec fn entries_ok(s: Seq<SectionEntry>, ctx: HyprlandRenderContext) -> bool
    decreases s, 1int,
{
    if s.len() == 0 {
        true
    } else {
        entries_ok(s.subrange(0, s.len() - 1), ctx) && entry_ok(s[s.len() - 1], ctx)
    }
}

/// A section can be rendered in `ctx` without overflowing indentation: the
/// context, the one below it, and those of all nested sections fit.
pub open spec fn section_ok(sec: Section, ctx: HyprlandRenderContext) -> bool
    decreases sec, 2int,
{
    &&& block_ok(ctx)
    &&& entries_ok(sec.entries@, ctx)
}

proof fn lemma_entries_ok_index(s: Seq<SectionEntry>, ctx: HyprlandRenderContext, i: int)
    requires
        entries_ok(s, ctx),
        0 <= i < s.len(),
    ensures
        entry_ok(s[i], ctx),
    decreases s.len(),
{
    if i < s.len() - 1 {
        lemma_entries_ok_index(s.subrange(0, s.len() - 1), ctx, i);
    }
}

impl Section {
    pub fn new(name: &str) -> (r: Self)
        ensures
            r.name@ == name@,
            r.entries@.len() == 0,
    {
        Section { name: owned(name), entries: Vec::new() }
    }

    /// Add a key-value pair (consuming builder).
    pub fn pair(self, key: &str, value: &str) -> (r: Self)
        ensures
            r.name == self.name,
            r.entries@.len() == self.entries@.len() + 1,
            r.entries@.drop_last() == self.entries@,
            r.entries@.last() matches SectionEntry::Pair(kv) && kv.key@ == key@ && kv.value@
                == value@,
    {
        let mut s = self;
        s.entries.push(SectionEntry::Pair(KeywordPair::new(key, value)));
        assert(s.entries@.drop_last() =~= self.entries@);
        s
    }

    /// Add a comment line (consuming builder).
    pub fn comment(self, text: &str) -> (r: Self)
        ensures
            r.name == self.name,
            r.entries@.len() == self.entries@.len() + 1,
            r.entries@.drop_last() == self.entries@,
            r.entries@.last() matches SectionEntry::Comment(c) && c@ == text@,
    {
        let mut s = self;
        s.entries.push(SectionEntry::Comment(owned(text)));
        assert(s.entries@.drop_last() =~= self.entries@);
        s
    }

    /// Add a blank line (consuming builder).
    pub fn blank(self) -> (r: Self)
        ensures
            r.name == self.name,
            r.entries@ == self.entries@.push(SectionEntry::Blank),
    {
        let mut s = self;
        s.entries.push(SectionEntry::Blank);
        s
    }

    /// Add a nested sub-section (consuming builder).
    pub fn nested(self, subsection: Section) -> (r: Self)
        ensures
            r.name == self.name,
            r.entries@ == self.entries@.push(SectionEntry::Nested(subsection)),
    {
        let mut s = self;
        s.entries.push(SectionEntry::Nested(subsection));
        s
    }

    /// Add a key-value pair (mutable borrow).
    pub fn add_pair(&mut self, key: &str, value: &str) -> (r: &mut Self)
        ensures
            r.name == old(self).name,
            r.entries@.len() == old(self).entries@.len() + 1,
            r.entries@.drop_last() == old(self).entries@,
            r.entries@.last() matches SectionEntry::Pair(kv) && kv.key@ == key@ && kv.value@
                == value@,
            *final(self) == *final(r),
    {
        self.entries.push(SectionEntry::Pair(KeywordPair::new(key, value)));
        assert(self.entries@.drop_last() =~= old(self).entries@);
        self
    }

    /// Add a nested sub-section (mutable borrow).
    pub fn add_nested(&mut self, subsection: Section) -> (r: &mut Self)
        ensures
            r.name == old(self).name,
            r.entries@ == old(self).entries@.push(SectionEntry::Nested(subsection)),
            *final(self) == *final(r),
    {
        self.entries.push(SectionEntry::Nested(subsection));
        self
    }

    fn render_at(&self, ctx: &HyprlandRenderContext) -> (r: String)
        requires
            section_ok(*self, *ctx),
        ensures
            r@ == section_text(*self, *ctx),
        decreases *self,
    {
        let indent = ctx.indent();
        let inner_ctx = ctx.deeper();
        let inner_indent = inner_ctx.indent();
        let mut lines: Vec<String> = Vec::new();
        push_part(&mut lines, cat3(indent.as_str(), self.name.as_str(), " {"));
        let mut i: usize = 0;
        while i < self.entries.len()
            invariant
                i <= self.entries@.len(),
                section_ok(*self, *ctx),
                inner_ctx == ctx.spec_deeper(),
                inner_indent@ == inner_ctx.spec_indent(),
                views(lines@) == seq![ctx.spec_indent() + self.name@ + " {"@] + entries_text(
                    self.entries@.subrange(0, i as int),
                    *ctx,
                ),
            decreases self.entries@.len() - i,
        {
            assert(self.entries@.subrange(0, i + 1).subrange(0, i as int) =~= self.entries@.subrange(
                0,
                i as int,
            ));
            proof {
                lemma_entries_ok_index(self.entries@, *ctx, i as int);
            }
            let line = match &self.entries[i] {
                SectionEntry::Pair(kv) => cat4(
                    inner_indent.as_str(),
                    kv.key.as_str(),
                    " = ",
                    kv.value.as_str(),
                ),
                SectionEntry::Nested(sub) => {
                    assert(decreases_to!(*self => self.entries));
                    assert(decreases_to!(self.entries => self.entries@));
                    assert(decreases_to!(self.entries@ => self.entries@[i as int]));
                    assert(decreases_to!(self.entries@[i as int] => *sub));
                    sub.render_at(&inner_ctx)
                },
                SectionEntry::Comment(c) => cat3(inner_indent.as_str(), "# ", c.as_str()),
                SectionEntry::Blank => String::new(),
            };
            assert(line@ == entry_text(self.entries@[i as int], *ctx));
            push_part(&mut lines, line);
            assert(entries_text(self.entries@.subrange(0, i + 1), *ctx) == entries_text(
                self.entries@.subrange(0, i as int),
                *ctx,
            ) + seq![entry_text(self.entries@[i as int], *ctx)]);
            i = i + 1;
        }
        assert(self.entries@.subrange(0, self.entries@.len() as int) =~= self.entries@);
        push_part(&mut lines, cat2(indent.as_str(), "}"));
        assert(views(lines@) =~= seq![ctx.spec_indent() + self.name@ + " {"@] + entries_text(
            self.entries@,
            *ctx,
        ) + seq![ctx.spec_indent() + "}"@]);
        join_strings(&lines, "\n")
    }
}

impl HyprlandConfig for Section {
    open spec fn spec_render(&self, ctx: HyprlandRenderContext) -> Seq<char> {
        section_text(*self, ctx)
    }

    open spec fn render_ok(&self, ctx: HyprlandRenderContext) -> bool {
        section_ok(*self, ctx)
    }

    fn render(&self, ctx: &HyprlandRenderContext) -> (r: String) {
        self.render_at(ctx)
    }

    fn validate(&self) -> (r: Result<(), String>) {
        Ok(())
    }
}

/// Raw Hyprland configuration text, each non-empty line indented.
pub struct RawHyprland {
    pub code: String,
}

impl RawHyprland {
    pub fn new(code: &str) -> (r: Self)
        ensures
            r.code@ == code@,
    {
        RawHyprland { code: owned(code) }
    }
}

/// A line of raw text as emitted: empty lines stay empty, others are indented.
pub open spec fn raw_line(indent: Seq<char>, line: Seq<char>) -> Seq<char> {
    if line.len() == 0 {
        Seq::empty()
    } else {
        indent + line
    }
}

impl HyprlandConfig for RawHyprland {
    open spec fn spec_render(&self, ctx: HyprlandRenderContext) -> Seq<char> {
        join(
            Seq::new(lines(self.code@).len(), |i: int| raw_line(ctx.spec_indent(), lines(self.code@)[i])),
            "\n"@,
        )
    }

    fn render(&self, ctx: &HyprlandRenderContext) -> (r: String) {
        let indent = ctx.indent();
        let ls = split_lines(self.code.as_str());
        let ghost target = Seq::new(
            lines(self.code@).len(),
            |i: int| raw_line(ctx.spec_indent(), lines(self.code@)[i]),
        );
        let mut out: Vec<String> = Vec::new();
        let mut i: usize = 0;
        while i < ls.len()
            invariant
                i <= ls@.len(),
                views(ls@) == lines(self.code@),
                indent@ == ctx.spec_indent(),
                target == Seq::new(
                    lines(self.code@).len(),
                    |i: int| raw_line(ctx.spec_indent(), lines(self.code@)[i]),
                ),
                views(out@) == target.take(i as int),
            decreases ls@.len() - i,
        {
            let l = ls[i].as_str();
            if l.unicode_len() == 0 {
                push_part(&mut out, String::new());
            } else {
                push_part(&mut out, cat2(indent.as_str(), l));
            }
            assert(target.take(i + 1) =~= target.take(i as int).push(target[i as int]));
            i = i + 1;
        }
        assert(target.take(ls@.len() as int) =~= target);
        join_strings(&out, "\n")
    }

    fn validate(&self) -> (r: Result<(), String>) {
        Ok(())
    }
}

} // verus!
