//! The Helix node family (`config.toml`): the rendering context, the
//! `HelixConfig` trait and the TOML value helpers.
use vstd::prelude::*;
use crate::text::{
    bool_str, cat3, join, join_strings, lemma_unbackslash_step, push_char, push_part, result_view,
    unbackslash, views,
};

verus! {

/// Rendering context for Helix configuration nodes.
#[derive(Debug, Clone, Copy)]
pub struct HelixRenderContext {
    /// When `true`, optional comment lines may be emitted.
    pub emit_comments: bool,
}

impl Default for HelixRenderContext {
    fn default() -> (r: Self)
        ensures
            r == HelixRenderContext::spec_default(),
    {
        HelixRenderContext { emit_comments: false }
    }
}

impl HelixRenderContext {
    pub open spec fn spec_default() -> Self {
        HelixRenderContext { emit_comments: false }
    }
}

/// Trait for Helix configuration nodes rendered to TOML.
pub trait HelixConfig {
    /// The text this node renders to in `ctx`.
    spec fn spec_render(&self, ctx: HelixRenderContext) -> Seq<char>;

    /// The outcome of validating this node.
    open spec fn spec_validate(&self) -> Result<(), Seq<char>> {
        Ok(())
    }

    /// Render this node into TOML text.
    fn render(&self, ctx: &HelixRenderContext) -> (r: String)
        ensures
            r@ == self.spec_render(*ctx),
    ;

    /// Convenience: render with the default context.
    fn generate(&self) -> (r: String)
        ensures
            r@ == self.spec_render(HelixRenderContext::spec_default()),
    {
        self.render(&HelixRenderContext::default())
    }

    /// Validation step run before rendering.
    fn validate(&self) -> (r: Result<(), String>)
        ensures
            result_view(r) == self.spec_validate(),
    ;
}

// ── TOML values ───────────────────────────────────────────────────────────────

/// A character as written inside a TOML basic string.
pub open spec fn toml_escape_char(c: char) -> Seq<char> {
    if c == '\\' {
        seq!['\\', '\\']
    } else if c == '"' {
        seq!['\\', '"']
    } else {
        seq![c]
    }
}

/// `s` with backslashes and double quotes escaped.
pub open spec fn toml_escape(s: Seq<char>) -> Seq<char>
    decreases s.len(),
{
    if s.len() == 0 {
        Seq::empty()
    } else {
        toml_escape(s.drop_last()) + toml_escape_char(s.last())
    }
}

/// `s` as a TOML basic string: escaped and enclosed in double quotes.
pub open spec fn toml_quoted(s: Seq<char>) -> Seq<char> {
    seq!['"'] + toml_escape(s) + seq!['"']
}

/// Escaping leaves text without backslashes and double quotes unchanged, so
/// such a string is written between quotes exactly as it is.
pub proof fn toml_escape_keeps_plain_text(s: Seq<char>)
    requires
        forall|i: int| 0 <= i < s.len() ==> #[trigger] s[i] != '\\' && s[i] != '"',
    ensures
        toml_escape(s) == s,
        toml_quoted(s) == seq!['"'] + s + seq!['"'],
    decreases s.len(),
{
    if s.len() > 0 {
        toml_escape_keeps_plain_text(s.drop_last());
        assert(s[s.len() - 1] != '\\' && s[s.len() - 1] != '"');
        assert(s.drop_last() + seq![s.last()] =~= s);
    }
}

proof fn lemma_toml_escape_append(a: Seq<char>, b: Seq<char>)
    ensures
        toml_escape(a + b) == toml_escape(a) + toml_escape(b),
    decreases b.len(),
{
    if b.len() == 0 {
        assert(a + b =~= a);
        assert(toml_escape(b) =~= Seq::<char>::empty());
        assert(toml_escape(a) + toml_escape(b) =~= toml_escape(a));
    } else {
        lemma_toml_escape_append(a, b.drop_last());
        assert((a + b).drop_last() =~= a + b.drop_last());
        assert((a + b).last() == b.last());
    }
}

/// Reading the escaped text back (a backslash stands for the character
/// after it, as in a TOML basic string) gives the string back.
pub proof fn toml_escape_reads_back(s: Seq<char>)
    ensures
        unbackslash(toml_escape(s)) == s,
    decreases s.len(),
{
    if s.len() > 0 {
        let rest = s.subrange(1, s.len() as int);
        toml_escape_reads_back(rest);
        assert(s =~= seq![s[0]] + rest);
        lemma_toml_escape_append(seq![s[0]], rest);
        let one = seq![s[0]];
        assert(one.drop_last() =~= Seq::<char>::empty());
        assert(toml_escape(one.drop_last()) =~= Seq::<char>::empty());
        assert(toml_escape(one) =~= toml_escape_char(s[0]));
        lemma_unbackslash_step(s[0], toml_escape_char(s[0]), toml_escape(rest));
    }
}

/// Quote `s` as a TOML basic string.
pub fn toml_str(s: &str) -> (r: String)
    ensures
        r@ == toml_quoted(s@),
{
    let n = s.unicode_len();
    let mut r = String::new();
    push_char(&mut r, '"');
    let mut i: usize = 0;
    while i < n
        invariant
            n == s@.len(),
            i <= n,
            r@ == seq!['"'] + toml_escape(s@.take(i as int)),
        decreases n - i,
    {
        let c = s.get_char(i);
        assert(s@.take(i + 1).drop_last() =~= s@.take(i as int));
        if c == '\\' {
            push_char(&mut r, '\\');
            push_char(&mut r, '\\');
        } else if c == '"' {
            push_char(&mut r, '\\');
            push_char(&mut r, '"');
        } else {
            push_char(&mut r, c);
        }
        assert(r@ =~= seq!['"'] + toml_escape(s@.take(i + 1)));
        i = i + 1;
    }
    push_char(&mut r, '"');
    assert(s@.take(n as int) =~= s@);
    r
}

/// The TOML text of a boolean.
pub fn toml_bool(v: bool) -> (r: &'static str)
    ensures
        r@ == bool_str(v),
{
    if v {
        "true"
    } else {
        "false"
    }
}

/// A TOML array of quoted strings: `["a", "b"]`.
pub open spec fn toml_array(items: Seq<Seq<char>>) -> Seq<char> {
    "["@ + join(Seq::new(items.len(), |i: int| toml_quoted(items[i])), ", "@) + "]"@
}

/// Render `items` as a TOML array of strings.
pub fn toml_str_array(items: &[String]) -> (r: String)
    ensures
        r@ == toml_array(views(items@)),
{
    let mut quoted: Vec<String> = Vec::new();
    let mut i: usize = 0;
    while i < items.len()
        invariant
            i <= items@.len(),
            views(quoted@) == Seq::new(i as nat, |k: int| toml_quoted(items@[k]@)),
        decreases items@.len() - i,
    {
        push_part(&mut quoted, toml_str(items[i].as_str()));
        assert(Seq::new((i + 1) as nat, |k: int| toml_quoted(items@[k]@)) =~= Seq::new(
            i as nat,
            |k: int| toml_quoted(items@[k]@),
        ).push(toml_quoted(items@[i as int]@)));
        i = i + 1;
    }
    assert(views(quoted@) =~= Seq::new(
        views(items@).len(),
        |k: int| toml_quoted(views(items@)[k]),
    ));
    let j = join_strings(&quoted, ", ");
    cat3("[", j.as_str(), "]")
}

// ── Sections of `key = value` lines ───────────────────────────────────────────

/// A table: the header then the entries, or nothing when there are no entries.
pub open spec fn table_text(header: Seq<char>, entries: Seq<Seq<char>>) -> Seq<char> {
    if entries.len() == 0 {
        Seq::empty()
    } else {
        join(seq![header] + entries, "\n"@)
    }
}

/// Renders a table; empty when there are no entries.
pub fn render_table(header: &str, entries: &Vec<String>) -> (r: String)
    ensures
        r@ == table_text(header@, views(entries@)),
{
    if entries.len() == 0 {
        return String::new();
    }
    let mut lines: Vec<String> = Vec::new();
    push_part(&mut lines, String::from_str(header));
    let mut i: usize = 0;
    while i < entries.len()
        invariant
            i <= entries@.len(),
            views(lines@) == seq![header@] + views(entries@).take(i as int),
        decreases entries@.len() - i,
    {
        push_part(&mut lines, entries[i].clone());
        assert(views(entries@).take(i + 1) =~= views(entries@).take(i as int).push(
            entries@[i as int]@,
        ));
        i = i + 1;
    }
    assert(views(entries@).take(entries@.len() as int) =~= views(entries@));
    join_strings(&lines, "\n")
}

/// The TOML string of an optional string.
pub open spec fn str_val(o: Option<Seq<char>>) -> Option<Seq<char>> {
    match o {
        Some(v) => Some(toml_quoted(v)),
        None => None,
    }
}

/// Renders an optional string as a TOML string.
pub fn str_value(o: Option<&str>) -> (r: Option<String>)
    ensures
        (match r {
            Some(v) => Some(v@),
            None => None,
        }) == str_val(
            match o {
                Some(s) => Some(s@),
                None => None,
            },
        ),
{
    match o {
        Some(s) => Some(toml_str(s)),
        None => None,
    }
}

} // verus!
