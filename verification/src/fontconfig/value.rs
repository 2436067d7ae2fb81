//! XML escaping and the typed values of `<test>`, `<edit>` and `<patelt>`.
use vstd::prelude::*;
use crate::fontconfig::context::FontconfigRenderContext;
use crate::text::{
    bool_str, bool_text, cat2, cat4, i64_str, int_str, join, join_strings, owned, push_char,
    push_part, views,
};

verus! {

/// A character as written in XML text or attribute values.
pub open spec fn xml_escape_char(c: char) -> Seq<char> {
    if c == '&' {
        "&amp;"@
    } else if c == '<' {
        "&lt;"@
    } else if c == '>' {
        "&gt;"@
    } else if c == '"' {
        "&quot;"@
    } else if c == '\'' {
        "&apos;"@
    } else {
        seq![c]
    }
}

/// `s` with the five XML special characters replaced by their entities.
pub open spec fn xml_escaped(s: Seq<char>) -> Seq<char>
    decreases s.len(),
{
    if s.len() == 0 {
        Seq::empty()
    } else {
        xml_escaped(s.drop_last()) + xml_escape_char(s.last())
    }
}

/// A character that XML escaping replaces.
pub open spec fn is_xml_special(c: char) -> bool {
    c == '&' || c == '<' || c == '>' || c == '"' || c == '\''
}

/// Escaping leaves text without special characters unchanged.
pub proof fn xml_escape_keeps_plain_text(s: Seq<char>)
    requires
        forall|i: int| 0 <= i < s.len() ==> !is_xml_special(#[trigger] s[i]),
    ensures
        xml_escaped(s) == s,
    decreases s.len(),
{
    if s.len() > 0 {
        xml_escape_keeps_plain_text(s.drop_last());
        assert(!is_xml_special(s[s.len() - 1]));
        assert(s.drop_last() + seq![s.last()] =~= s);
    }
}

/// Escaped text holds no `<`, `>`, `"` or `'`: it cannot open or close an
/// element or end an attribute value.
pub proof fn xml_escape_leaves_no_markup(s: Seq<char>)
    ensures
        forall|k: int|
            0 <= k < xml_escaped(s).len() ==> {
                let c = #[trigger] xml_escaped(s)[k];
                c != '<' && c != '>' && c != '"' && c != '\''
            },
    decreases s.len(),
{
    if s.len() > 0 {
        xml_escape_leaves_no_markup(s.drop_last());
        let a = xml_escaped(s.drop_last());
        let b = xml_escape_char(s.last());
        reveal_strlit("&amp;");
        reveal_strlit("&lt;");
        reveal_strlit("&gt;");
        reveal_strlit("&quot;");
        reveal_strlit("&apos;");
        assert forall|k: int| 0 <= k < (a + b).len() implies {
            let c = #[trigger] (a + b)[k];
            c != '<' && c != '>' && c != '"' && c != '\''
        } by {
            if k < a.len() {
                assert((a + b)[k] == a[k]);
            } else {
                assert((a + b)[k] == b[k - a.len()]);
            }
        }
    }
}

fn push_str_chars(r: &mut String, t: &str)
    ensures
        final(r)@ == old(r)@ + t@,
{
    r.append(t);
}

/// Escape a string for safe embedding in XML text content.
pub fn xml_escape(s: &str) -> (r: String)
    ensures
        r@ == xml_escaped(s@),
{
    let n = s.unicode_len();
    let mut r = String::new();
    let mut i: usize = 0;
    while i < n
        invariant
            n == s@.len(),
            i <= n,
            r@ == xml_escaped(s@.take(i as int)),
        decreases n - i,
    {
        let c = s.get_char(i);
        assert(s@.take(i + 1).drop_last() =~= s@.take(i as int));
        if c == '&' {
            push_str_chars(&mut r, "&amp;");
        } else if c == '<' {
            push_str_chars(&mut r, "&lt;");
        } else if c == '>' {
            push_str_chars(&mut r, "&gt;");
        } else if c == '"' {
            push_str_chars(&mut r, "&quot;");
        } else if c == '\'' {
            push_str_chars(&mut r, "&apos;");
        } else {
            push_char(&mut r, c);
        }
        assert(r@ =~= xml_escaped(s@.take(i + 1)));
        i = i + 1;
    }
    assert(s@.take(n as int) =~= s@);
    r
}

/// A typed value inside a fontconfig `<test>`, `<edit>` or `<patelt>`.
///
/// A floating-point number is held as its decimal text, as `f64`'s
/// `Display` writes it.
pub enum FontconfigValue {
    /// `<string>text</string>` (escaped).
    Str(String),
    /// `<int>n</int>`.
    Int(i64),
    /// `<double>n</double>`, the number's decimal text.
    Double(String),
    /// `<bool>true|false</bool>`.
    Bool(bool),
    /// `<const>name</const>`, a symbolic constant.
    Const(String),
    /// `<name>prop</name>`, a reference to another font property.
    Name(String),
    /// `<list>…</list>`, an ordered list of values.
    List(Vec<FontconfigValue>),
    /// `<range><double>lo</double><double>hi</double></range>`, the bounds' decimal texts.
    Range(String, String),
}

/// The XML of a value rendered in `ctx`.
pub open spec fn value_xml(v: FontconfigValue, ctx: FontconfigRenderContext) -> Seq<char>
    decreases v, 0int,
{
    let ind = ctx.spec_indent();
    match v {
        FontconfigValue::Str(s) => ind + "<string>"@ + xml_escaped(s@) + "</string>"@,
        FontconfigValue::Int(n) => ind + "<int>"@ + int_str(n as int) + "</int>"@,
        FontconfigValue::Double(t) => ind + "<double>"@ + t@ + "</double>"@,
        FontconfigValue::Bool(b) => ind + "<bool>"@ + bool_str(b) + "</bool>"@,
        FontconfigValue::Const(c) => ind + "<const>"@ + xml_escaped(c@) + "</const>"@,
        FontconfigValue::Name(p) => ind + "<name>"@ + xml_escaped(p@) + "</name>"@,
        FontconfigValue::Range(lo, hi) => {
            let ii = ctx.spec_deeper().spec_indent();
            join(
                seq![
                    ind + "<range>"@,
                    ii + "<double>"@ + lo@ + "</double>"@,
                    ii + "<double>"@ + hi@ + "</double>"@,
                    ind + "</range>"@,
                ],
                "\n"@,
            )
        },
        FontconfigValue::List(items) => join(
            seq![ind + "<list>"@] + items_xml(items@, ctx.spec_deeper()) + seq![ind + "</list>"@],
            "\n"@,
        ),
    }
}

/// The XML of each value of a list, each rendered in `ctx`.
pub open spec fn items_xml(s: Seq<FontconfigValue>, ctx: FontconfigRenderContext) -> Seq<Seq<char>>
    decreases s, 1int,
{
    if s.len() == 0 {
        Seq::empty()
    } else {
        items_xml(s.subrange(0, s.len() - 1), ctx) + seq![value_xml(s[s.len() - 1], ctx)]
    }
}

/// A value can be rendered in `ctx`: the contexts of its nested lists fit.
pub open spec fn value_ok(v: FontconfigValue, ctx: FontconfigRenderContext) -> bool
    decreases v, 0int,
{
    match v {
        FontconfigValue::Range(_, _) => ctx.nest_ok(),
        FontconfigValue::List(items) => ctx.nest_ok() && items_ok(items@, ctx.spec_deeper()),
        _ => ctx.fits(),
    }
}

/// Every value of a list can be rendered in `ctx`.
pub open spec fn items_ok(s: Seq<FontconfigValue>, ctx: FontconfigRenderContext) -> bool
    decreases s, 1int,
{
    if s.len() == 0 {
        true
    } else {
        items_ok(s.subrange(0, s.len() - 1), ctx) && value_ok(s[s.len() - 1], ctx)
    }
}

proof fn lemma_items_ok_index(s: Seq<FontconfigValue>, ctx: FontconfigRenderContext, i: int)
    requires
        items_ok(s, ctx),
        0 <= i < s.len(),
    ensures
        value_ok(s[i], ctx),
    decreases s.len(),
{
    if i < s.len() - 1 {
        lemma_items_ok_index(s.subrange(0, s.len() - 1), ctx, i);
    }
}

impl FontconfigValue {
    pub fn string(s: &str) -> (r: Self)
        ensures
            r matches FontconfigValue::Str(t) && t@ == s@,
    {
        FontconfigValue::Str(owned(s))
    }

    /// An integer.
    pub fn integer(n: i64) -> (r: Self)
        ensures
            r == FontconfigValue::Int(n),
    {
        FontconfigValue::Int(n)
    }

    /// A double given by its decimal text.
    pub fn double(decimal: &str) -> (r: Self)
        ensures
            r matches FontconfigValue::Double(t) && t@ == decimal@,
    {
        FontconfigValue::Double(owned(decimal))
    }

    pub fn boolean(b: bool) -> (r: Self)
        ensures
            r == FontconfigValue::Bool(b),
    {
        FontconfigValue::Bool(b)
    }

    /// A symbolic constant.
    pub fn constant(name: &str) -> (r: Self)
        ensures
            r matches FontconfigValue::Const(t) && t@ == name@,
    {
        FontconfigValue::Const(owned(name))
    }

    /// A reference to another font property.
    pub fn name(prop: &str) -> (r: Self)
        ensures
            r matches FontconfigValue::Name(t) && t@ == prop@,
    {
        FontconfigValue::Name(owned(prop))
    }

    /// A list of values, in order.
    pub fn list(items: Vec<FontconfigValue>) -> (r: Self)
        ensures
            r == FontconfigValue::List(items),
    {
        FontconfigValue::List(items)
    }

    /// A range given by the decimal texts of its bounds.
    pub fn range(lo: &str, hi: &str) -> (r: Self)
        ensures
            r matches FontconfigValue::Range(l, h) && l@ == lo@ && h@ == hi@,
    {
        FontconfigValue::Range(owned(lo), owned(hi))
    }

    /// Render this value as an XML element at the given context level.
    pub fn render_xml(&self, ctx: &FontconfigRenderContext) -> (r: String)
        requires
            value_ok(*self, *ctx),
        ensures
            r@ == value_xml(*self, *ctx),
        decreases *self,
    {
        let indent = ctx.indent();
        match self {
            FontconfigValue::Str(s) => {
                let e = xml_escape(s.as_str());
                cat4(indent.as_str(), "<string>", e.as_str(), "</string>")
            },
            FontconfigValue::Int(n) => {
                let d = i64_str(*n);
                cat4(indent.as_str(), "<int>", d.as_str(), "</int>")
            },
            FontconfigValue::Double(t) => cat4(indent.as_str(), "<double>", t.as_str(), "</double>"),
            FontconfigValue::Bool(b) => cat4(indent.as_str(), "<bool>", bool_text(*b), "</bool>"),
            FontconfigValue::Const(c) => {
                let e = xml_escape(c.as_str());
                cat4(indent.as_str(), "<const>", e.as_str(), "</const>")
            },
            FontconfigValue::Name(p) => {
                let e = xml_escape(p.as_str());
                cat4(indent.as_str(), "<name>", e.as_str(), "</name>")
            },
            FontconfigValue::Range(lo, hi) => {
                let ii = ctx.deeper().indent();
                let mut parts: Vec<String> = Vec::new();
                push_part(&mut parts, cat2(indent.as_str(), "<range>"));
                push_part(&mut parts, cat4(ii.as_str(), "<double>", lo.as_str(), "</double>"));
                push_part(&mut parts, cat4(ii.as_str(), "<double>", hi.as_str(), "</double>"));
                push_part(&mut parts, cat2(indent.as_str(), "</range>"));
                assert(views(parts@) =~= seq![
                    ctx.spec_indent() + "<range>"@,
                    ctx.spec_deeper().spec_indent() + "<double>"@ + lo@ + "</double>"@,
                    ctx.spec_deeper().spec_indent() + "<double>"@ + hi@ + "</double>"@,
                    ctx.spec_indent() + "</range>"@,
                ]);
                join_strings(&parts, "\n")
            },
            FontconfigValue::List(items) => {
                let inner = ctx.deeper();
                let mut parts: Vec<String> = Vec::new();
                push_part(&mut parts, cat2(indent.as_str(), "<list>"));
                let mut i: usize = 0;
                while i < items.len()
                    invariant
                        i <= items@.len(),
                        *self == FontconfigValue::List(*items),
                        value_ok(*self, *ctx),
                        inner == ctx.spec_deeper(),
                        views(parts@) == seq![ctx.spec_indent() + "<list>"@] + items_xml(
                            items@.subrange(0, i as int),
                            inner,
                        ),
                    decreases items@.len() - i,
                {
                    assert(items@.subrange(0, i + 1).subrange(0, i as int) =~= items@.subrange(
                        0,
                        i as int,
                    ));
                    proof {
                        lemma_items_ok_index(items@, inner, i as int);
                    }
                    assert(decreases_to!(*self => *items));
                    assert(decreases_to!(*items => items@));
                    assert(decreases_to!(items@ => items@[i as int]));
                    let x = items[i].render_xml(&inner);
                    push_part(&mut parts, x);
                    assert(items_xml(items@.subrange(0, i + 1), inner) == items_xml(
                        items@.subrange(0, i as int),
                        inner,
                    ) + seq![value_xml(items@[i as int], inner)]);
                    i = i + 1;
                }
                assert(items@.subrange(0, items@.len() as int) =~= items@);
                push_part(&mut parts, cat2(indent.as_str(), "</list>"));
                assert(views(parts@) =~= seq![ctx.spec_indent() + "<list>"@] + items_xml(
                    items@,
                    inner,
                ) + seq![ctx.spec_indent() + "</list>"@]);
                join_strings(&parts, "\n")
            },
        }
    }
}

} // verus!
