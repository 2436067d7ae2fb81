//! Neovim key mappings (`vim.keymap.set`).
use vstd::prelude::*;
use crate::base::{Config, RenderContext};
use crate::text::{
    bool_entry, cat2, cat3, join, num_entry, push_bool_entry, push_num_entry, push_text_entry,
    text_entry, join_strings, opt_as_str, opt_view, owned, push_part, views,
};

verus! {

/// Represents a Neovim mode for key mappings.
#[derive(Debug, Clone, Copy, PartialEq, Eq, Structural)]
pub enum Mode {
    Normal,
    Insert,
    Visual,
    VisualLine,
    VisualBlock,
    Select,
    CommandLine,
    Terminal,
    Operator,
}

impl Mode {
    pub open spec fn spec_str(self) -> Seq<char> {
        match self {
            Mode::Normal => "n"@,
            Mode::Insert => "i"@,
            Mode::Visual => "v"@,
            Mode::VisualLine => "V"@,
            Mode::VisualBlock => "\x16"@,
            Mode::Select => "s"@,
            Mode::CommandLine => "c"@,
            Mode::Terminal => "t"@,
            Mode::Operator => "o"@,
        }
    }

    pub fn as_str(self) -> (r: &'static str)
        ensures
            r@ == self.spec_str(),
    {
        match self {
            Mode::Normal => "n",
            Mode::Insert => "i",
            Mode::Visual => "v",
            Mode::VisualLine => "V",
            Mode::VisualBlock => "\x16",
            Mode::Select => "s",
            Mode::CommandLine => "c",
            Mode::Terminal => "t",
            Mode::Operator => "o",
        }
    }
}

/// Keymap options (`{ silent = true, … }`).
#[derive(Debug, Clone)]
pub struct MapOpts {
    pub silent: Option<bool>,
    pub noremap: Option<bool>,
    pub expr: Option<bool>,
    pub nowait: Option<bool>,
    pub remap: Option<bool>,
    pub unique: Option<bool>,
    pub desc: Option<String>,
    pub buffer: Option<i32>,
}

impl Default for MapOpts {
    fn default() -> (r: Self)
        ensures
            r == MapOpts::spec_default(),
    {
        MapOpts {
            silent: None,
            noremap: None,
            expr: None,
            nowait: None,
            remap: None,
            unique: None,
            desc: None,
            buffer: None,
        }
    }
}

impl MapOpts {
    /// All options unset.
    pub open spec fn spec_default() -> Self {
        MapOpts {
            silent: None,
            noremap: None,
            expr: None,
            nowait: None,
            remap: None,
            unique: None,
            desc: None,
            buffer: None,
        }
    }

    /// `silent` and `noremap` set, all other options unset.
    pub open spec fn spec_default_safe() -> Self {
        MapOpts { silent: Some(true), noremap: Some(true), ..MapOpts::spec_default() }
    }

    pub fn new() -> (r: Self)
        ensures
            r == MapOpts::spec_default(),
    {
        Self::default()
    }

    pub fn silent(self, v: bool) -> (r: Self)
        ensures
            r == (MapOpts { silent: Some(v), ..self }),
    {
        MapOpts { silent: Some(v), ..self }
    }
    pub fn noremap(self, v: bool) -> (r: Self)
        ensures
            r == (MapOpts { noremap: Some(v), ..self }),
    {
        MapOpts { noremap: Some(v), ..self }
    }
    pub fn expr(self, v: bool) -> (r: Self)
        ensures
            r == (MapOpts { expr: Some(v), ..self }),
    {
        MapOpts { expr: Some(v), ..self }
    }
    pub fn nowait(self, v: bool) -> (r: Self)
        ensures
            r == (MapOpts { nowait: Some(v), ..self }),
    {
        MapOpts { nowait: Some(v), ..self }
    }
    pub fn remap(self, v: bool) -> (r: Self)
        ensures
            r == (MapOpts { remap: Some(v), ..self }),
    {
        MapOpts { remap: Some(v), ..self }
    }
    pub fn unique(self, v: bool) -> (r: Self)
        ensures
            r == (MapOpts { unique: Some(v), ..self }),
    {
        MapOpts { unique: Some(v), ..self }
    }
    pub fn desc(self, d: &str) -> (r: Self)
        ensures
            opt_view(r.desc) == Some(d@),
            r == (MapOpts { desc: r.desc, ..self }),
    {
        MapOpts { desc: Some(owned(d)), ..self }
    }
    pub fn buffer(self, buf: i32) -> (r: Self)
        ensures
            r == (MapOpts { buffer: Some(buf), ..self }),
    {
        MapOpts { buffer: Some(buf), ..self }
    }

    pub fn default_safe() -> (r: Self)
        ensures
            r == MapOpts::spec_default_safe(),
    {
        Self::new().silent(true).noremap(true)
    }

    /// The `key = value` entries of the table.
    pub open spec fn spec_props(self) -> Seq<Seq<char>> {
        bool_entry("silent = "@, self.silent) + bool_entry("noremap = "@, self.noremap) + bool_entry(
            "expr = "@,
            self.expr,
        ) + bool_entry("nowait = "@, self.nowait) + bool_entry("remap = "@, self.remap) + bool_entry(
            "unique = "@,
            self.unique,
        ) + text_entry("desc = '"@, self.desc, "'"@) + num_entry(
            "buffer = "@,
            match self.buffer {
                Some(b) => Some(b as int),
                None => None,
            },
        )
    }

    /// The options as a Lua table: `{}` or `{ k = v, … }`.
    pub open spec fn spec_lua_table(self) -> Seq<char> {
        if self.spec_props().len() == 0 {
            "{}"@
        } else {
            "{ "@ + join(self.spec_props(), ", "@) + " }"@
        }
    }

    fn props(&self) -> (r: Vec<String>)
        ensures
            views(r@) == self.spec_props(),
    {
        let mut props: Vec<String> = Vec::new();
        push_bool_entry(&mut props, "silent = ", self.silent);
        push_bool_entry(&mut props, "noremap = ", self.noremap);
        push_bool_entry(&mut props, "expr = ", self.expr);
        push_bool_entry(&mut props, "nowait = ", self.nowait);
        push_bool_entry(&mut props, "remap = ", self.remap);
        push_bool_entry(&mut props, "unique = ", self.unique);
        push_text_entry(&mut props, "desc = '", &self.desc, "'");
        push_num_entry(
            &mut props,
            "buffer = ",
            match self.buffer {
                Some(b) => Some(b as i64),
                None => None,
            },
        );
        assert(views(props@) =~= self.spec_props());
        props
    }

    pub fn to_lua_table(&self) -> (r: String)
        ensures
            r@ == self.spec_lua_table(),
    {
        let props = self.props();
        if props.len() == 0 {
            owned("{}")
        } else {
            let j = join_strings(&props, ", ");
            cat3("{ ", j.as_str(), " }")
        }
    }
}

/// The right-hand side of a mapping: an Ex command string or a Lua expression.
#[derive(Debug, Clone)]
pub enum MapRhs {
    Command(String),
    Lua(String),
}

impl MapRhs {
    pub fn cmd(s: &str) -> (r: Self)
        ensures
            r matches MapRhs::Command(c) && c@ == s@,
    {
        MapRhs::Command(owned(s))
    }

    pub fn lua(s: &str) -> (r: Self)
        ensures
            r matches MapRhs::Lua(c) && c@ == s@,
    {
        MapRhs::Lua(owned(s))
    }

    pub open spec fn spec_text(self) -> Seq<char> {
        match self {
            MapRhs::Command(s) => "'"@ + s@ + "'"@,
            MapRhs::Lua(s) => s@,
        }
    }

    pub fn to_string(&self) -> (r: String)
        ensures
            r@ == self.spec_text(),
    {
        match self {
            MapRhs::Command(s) => cat3("'", s.as_str(), "'"),
            MapRhs::Lua(s) => s.clone(),
        }
    }
}

/// A mode in single quotes.
pub open spec fn quoted_mode(m: Mode) -> Seq<char> {
    "'"@ + m.spec_str() + "'"@
}

/// A single `vim.keymap.set(...)` call.
#[derive(Debug, Clone)]
pub struct KeymapNode {
    pub modes: Vec<Mode>,
    pub lhs: String,
    pub rhs: MapRhs,
    pub opts: MapOpts,
}

impl KeymapNode {
    pub fn new(modes: Vec<Mode>, lhs: &str, rhs: MapRhs) -> (r: Self)
        ensures
            r.modes == modes,
            r.lhs@ == lhs@,
            r.rhs == rhs,
            r.opts == MapOpts::spec_default_safe(),
    {
        KeymapNode { modes, lhs: owned(lhs), rhs, opts: MapOpts::default_safe() }
    }

    pub fn n(lhs: &str, rhs: MapRhs) -> (r: Self)
        ensures
            r.modes@ == seq![Mode::Normal],
            r.lhs@ == lhs@,
            r.rhs == rhs,
            r.opts == MapOpts::spec_default_safe(),
    {
        Self::new(vec![Mode::Normal], lhs, rhs)
    }
    pub fn i(lhs: &str, rhs: MapRhs) -> (r: Self)
        ensures
            r.modes@ == seq![Mode::Insert],
            r.lhs@ == lhs@,
            r.rhs == rhs,
            r.opts == MapOpts::spec_default_safe(),
    {
        Self::new(vec![Mode::Insert], lhs, rhs)
    }
    pub fn v(lhs: &str, rhs: MapRhs) -> (r: Self)
        ensures
            r.modes@ == seq![Mode::Visual],
            r.lhs@ == lhs@,
            r.rhs == rhs,
            r.opts == MapOpts::spec_default_safe(),
    {
        Self::new(vec![Mode::Visual], lhs, rhs)
    }
    pub fn t(lhs: &str, rhs: MapRhs) -> (r: Self)
        ensures
            r.modes@ == seq![Mode::Terminal],
            r.lhs@ == lhs@,
            r.rhs == rhs,
            r.opts == MapOpts::spec_default_safe(),
    {
        Self::new(vec![Mode::Terminal], lhs, rhs)
    }
    pub fn nv(lhs: &str, rhs: MapRhs) -> (r: Self)
        ensures
            r.modes@ == seq![Mode::Normal, Mode::Visual],
            r.lhs@ == lhs@,
            r.rhs == rhs,
            r.opts == MapOpts::spec_default_safe(),
    {
        Self::new(vec![Mode::Normal, Mode::Visual], lhs, rhs)
    }

    pub fn opts(self, opts: MapOpts) -> (r: Self)
        ensures
            r == (KeymapNode { opts: opts, ..self }),
    {
        KeymapNode { opts, ..self }
    }

    pub fn silent(self, v: bool) -> (r: Self)
        ensures
            r == (KeymapNode { opts: MapOpts { silent: Some(v), ..self.opts }, ..self }),
    {
        let mut s = self;
        s.opts.silent = Some(v);
        s
    }
    pub fn noremap(self, v: bool) -> (r: Self)
        ensures
            r == (KeymapNode { opts: MapOpts { noremap: Some(v), ..self.opts }, ..self }),
    {
        let mut s = self;
        s.opts.noremap = Some(v);
        s
    }
    pub fn desc(self, d: &str) -> (r: Self)
        ensures
            opt_view(r.opts.desc) == Some(d@),
            r == (KeymapNode { opts: MapOpts { desc: r.opts.desc, ..self.opts }, ..self }),
    {
        let mut s = self;
        s.opts.desc = Some(owned(d));
        s
    }
    pub fn buffer(self, buf: i32) -> (r: Self)
        ensures
            r == (KeymapNode { opts: MapOpts { buffer: Some(buf), ..self.opts }, ..self }),
    {
        let mut s = self;
        s.opts.buffer = Some(buf);
        s
    }
    pub fn expr(self, v: bool) -> (r: Self)
        ensures
            r == (KeymapNode { opts: MapOpts { expr: Some(v), ..self.opts }, ..self }),
    {
        let mut s = self;
        s.opts.expr = Some(v);
        s
    }

    /// The mode argument: one quoted mode, or a table of quoted modes.
    pub open spec fn spec_modes_str(self) -> Seq<char> {
        if self.modes@.len() == 1 {
            quoted_mode(self.modes@[0])
        } else {
            "{ "@ + join(Seq::new(self.modes@.len(), |i: int| quoted_mode(self.modes@[i])), ", "@)
                + " }"@
        }
    }

    fn modes_str(&self) -> (r: String)
        ensures
            r@ == self.spec_modes_str(),
    {
        if self.modes.len() == 1 {
            cat3("'", self.modes[0].as_str(), "'")
        } else {
            let mut ms: Vec<String> = Vec::new();
            let mut i: usize = 0;
            while i < self.modes.len()
                invariant
                    i <= self.modes@.len(),
                    views(ms@) == Seq::new(i as nat, |k: int| quoted_mode(self.modes@[k])),
                decreases self.modes@.len() - i,
            {
                push_part(&mut ms, cat3("'", self.modes[i].as_str(), "'"));
                assert(Seq::new((i + 1) as nat, |k: int| quoted_mode(self.modes@[k])) =~= Seq::new(
                    i as nat,
                    |k: int| quoted_mode(self.modes@[k]),
                ).push(quoted_mode(self.modes@[i as int])));
                i = i + 1;
            }
            let j = join_strings(&ms, ", ");
            cat3("{ ", j.as_str(), " }")
        }
    }
}

impl Config for KeymapNode {
    open spec fn spec_render(&self, ctx: RenderContext) -> Seq<char> {
        ctx.spec_indent() + "vim.keymap.set("@ + self.spec_modes_str() + ", '"@ + self.lhs@ + "', "@
            + self.rhs.spec_text() + ", "@ + self.opts.spec_lua_table() + ")"@
    }

    open spec fn spec_doc(&self) -> Option<Seq<char>> {
        opt_view(self.opts.desc)
    }

    fn render(&self, ctx: &RenderContext) -> (r: String) {
        let modes = self.modes_str();
        let rhs = self.rhs.to_string();
        let table = self.opts.to_lua_table();
        let mut r = ctx.indent();
        r.append("vim.keymap.set(");
        r.append(modes.as_str());
        r.append(", '");
        r.append(self.lhs.as_str());
        r.append("', ");
        r.append(rhs.as_str());
        r.append(", ");
        r.append(table.as_str());
        r.append(")");
        r
    }

    fn doc_comment(&self) -> (r: Option<&str>) {
        opt_as_str(&self.opts.desc)
    }

    fn validate(&self) -> (r: Result<(), String>) {
        Ok(())
    }
}

/// A labelled group of mappings sharing a key prefix.
pub struct KeymapGroup {
    pub prefix: String,
    pub label: Option<String>,
    pub maps: Vec<KeymapNode>,
}

impl KeymapGroup {
    pub fn new(prefix: &str) -> (r: Self)
        ensures
            r.prefix@ == prefix@,
            r.label is None,
            r.maps@.len() == 0,
    {
        KeymapGroup { prefix: owned(prefix), label: None, maps: Vec::new() }
    }

    pub fn label(self, l: &str) -> (r: Self)
        ensures
            opt_view(r.label) == Some(l@),
            r == (KeymapGroup { label: r.label, ..self }),
    {
        KeymapGroup { label: Some(owned(l)), ..self }
    }

    /// Adds `map` with the group prefix put in front of its key sequence.
    pub fn add(self, map: KeymapNode) -> (r: Self)
        ensures
            r.prefix == self.prefix,
            r.label == self.label,
            r.maps@.len() == self.maps@.len() + 1,
            r.maps@.drop_last() == self.maps@,
            r.maps@.last().lhs@ == self.prefix@ + map.lhs@,
            r.maps@.last() == (KeymapNode { lhs: r.maps@.last().lhs, ..map }),
    {
        let mut s = self;
        let mut map = map;
        map.lhs = cat2(s.prefix.as_str(), map.lhs.as_str());
        s.maps.push(map);
        assert(s.maps@.drop_last() =~= self.maps@);
        s
    }

    /// The rendering of every mapping of the group, in order.
    pub open spec fn spec_map_renders(self, ctx: RenderContext) -> Seq<Seq<char>> {
        Seq::new(self.maps@.len(), |i: int| self.maps@[i].spec_render(ctx))
    }
}

/// Every mapping of the group starts with the group prefix.
pub open spec fn all_prefixed(g: KeymapGroup) -> bool {
    forall|i: int| 0 <= i < g.maps@.len() ==> g.prefix@.is_prefix_of(#[trigger] g.maps@[i].lhs@)
}

/// All mappings of a group inherit its prefix: a new group has none, and
/// adding a mapping (as `add` does) keeps every key sequence prefixed.
pub proof fn adding_keeps_mappings_prefixed(g: KeymapGroup, map: KeymapNode, r: KeymapGroup)
    requires
        all_prefixed(g),
        r.prefix == g.prefix,
        r.maps@.len() == g.maps@.len() + 1,
        r.maps@.drop_last() == g.maps@,
        r.maps@.last().lhs@ == g.prefix@ + map.lhs@,
    ensures
        all_prefixed(r),
{
    assert forall|i: int| 0 <= i < r.maps@.len() implies r.prefix@.is_prefix_of(
        #[trigger] r.maps@[i].lhs@,
    ) by {
        if i < g.maps@.len() {
            assert(r.maps@[i] == r.maps@.drop_last()[i]);
            assert(g.prefix@.is_prefix_of(g.maps@[i].lhs@));
        } else {
            assert((g.prefix@ + map.lhs@).subrange(0, g.prefix@.len() as int) =~= g.prefix@);
        }
    }
}

impl Config for KeymapGroup {
    open spec fn spec_render(&self, ctx: RenderContext) -> Seq<char> {
        join(
            (match self.label {
                Some(l) => seq![ctx.spec_indent() + "-- Keymaps: "@ + l@],
                None => Seq::empty(),
            }) + self.spec_map_renders(ctx),
            "\n"@,
        )
    }

    fn render(&self, ctx: &RenderContext) -> (r: String) {
        let mut out: Vec<String> = Vec::new();
        match &self.label {
            Some(l) => {
                let ind = ctx.indent();
                push_part(&mut out, cat3(ind.as_str(), "-- Keymaps: ", l.as_str()));
            },
            None => {},
        }
        let ghost start = views(out@);
        let mut i: usize = 0;
        while i < self.maps.len()
            invariant
                i <= self.maps@.len(),
                ctx.fits(),
                views(out@) == start + Seq::new(i as nat, |k: int| self.maps@[k].spec_render(*ctx)),
            decreases self.maps@.len() - i,
        {
            let m = self.maps[i].render(ctx);
            push_part(&mut out, m);
            assert(Seq::new((i + 1) as nat, |k: int| self.maps@[k].spec_render(*ctx)) =~= Seq::new(
                i as nat,
                |k: int| self.maps@[k].spec_render(*ctx),
            ).push(self.maps@[i as int].spec_render(*ctx)));
            i = i + 1;
        }
        assert(views(out@) =~= (match self.label {
            Some(l) => seq![ctx.spec_indent() + "-- Keymaps: "@ + l@],
            None => Seq::empty(),
        }) + self.spec_map_renders(*ctx));
        join_strings(&out, "\n")
    }

    fn doc_comment(&self) -> (r: Option<&str>) {
        None
    }

    fn validate(&self) -> (r: Result<(), String>) {
        Ok(())
    }
}

} // verus!
