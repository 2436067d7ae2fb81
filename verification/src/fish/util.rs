//! Quoting of fish shell values.
use vstd::prelude::*;
use crate::base::RenderContext;
use crate::text::{
    cat2, join, join_strings, lemma_unbackslash_step, prefixed, push_char, push_part, push_prefixed,
    unbackslash, views,
};

verus! {

/// What `char::is_alphanumeric` returns for `c` (Unicode `Alphabetic` or
/// `Numeric`).
pub uninterp spec fn char_is_alphanumeric(c: char) -> bool;

/// `char::is_alphanumeric` from std.  The contract names the result and
/// states, as the std documentation gives it, that on ASCII characters it
/// holds exactly for letters and digits; the Unicode tables are not stated.
#[verifier::external_body]
fn is_alphanumeric(c: char) -> (r: bool)
    ensures
        r == char_is_alphanumeric(c),
        (c as u32) < 128 ==> (r <==> (('a' <= c && c <= 'z') || ('A' <= c && c <= 'Z') || ('0' <= c
            && c <= '9'))),
{
    c.is_alphanumeric()
}

/// An ASCII letter or digit.
pub open spec fn is_ascii_alphanumeric(c: char) -> bool {
    ('a' <= c && c <= 'z') || ('A' <= c && c <= 'Z') || ('0' <= c && c <= '9')
}

/// A character that may appear in an unquoted fish value: an alphanumeric
/// character (for ASCII, a letter or digit) or one of `_ - . / ~ :`.
pub open spec fn is_bare_char(c: char) -> bool {
    (if (c as u32) < 128 {
        is_ascii_alphanumeric(c)
    } else {
        char_is_alphanumeric(c)
    }) || c == '_' || c == '-' || c == '.' || c == '/' || c == '~' || c == ':'
}

/// Every character of `s` may appear unquoted.
pub open spec fn is_bare(s: Seq<char>) -> bool {
    forall|i: int| 0 <= i < s.len() ==> #[trigger] is_bare_char(s[i])
}

/// A character as it is written inside single quotes.
pub open spec fn escape_char(c: char) -> Seq<char> {
    if c == '\\' {
        seq!['\\', '\\']
    } else if c == '\'' {
        seq!['\\', '\'']
    } else {
        seq![c]
    }
}

/// `s` with every backslash doubled and every single quote preceded by a backslash.
pub open spec fn escape_fish(s: Seq<char>) -> Seq<char>
    decreases s.len(),
{
    if s.len() == 0 {
        Seq::empty()
    } else {
        escape_fish(s.drop_last()) + escape_char(s.last())
    }
}

/// The fish rendering of a value: bare values as they are, all others
/// escaped and enclosed in single quotes.
pub open spec fn quote_fish(s: Seq<char>) -> Seq<char> {
    if is_bare(s) {
        s
    } else {
        seq!['\''] + escape_fish(s) + seq!['\'']
    }
}

proof fn lemma_escape_fish_append(a: Seq<char>, b: Seq<char>)
    ensures
        escape_fish(a + b) == escape_fish(a) + escape_fish(b),
    decreases b.len(),
{
    if b.len() == 0 {
        assert(a + b =~= a);
        assert(escape_fish(b) =~= Seq::<char>::empty());
        assert(escape_fish(a) + escape_fish(b) =~= escape_fish(a));
    } else {
        lemma_escape_fish_append(a, b.drop_last());
        assert((a + b).drop_last() =~= a + b.drop_last());
        assert((a + b).last() == b.last());
    }
}

/// Reading the escaped text back (a backslash stands for the character
/// after it) gives the value back: escaping loses nothing.
pub proof fn escape_fish_reads_back(s: Seq<char>)
    ensures
        unbackslash(escape_fish(s)) == s,
    decreases s.len(),
{
    if s.len() > 0 {
        let rest = s.subrange(1, s.len() as int);
        escape_fish_reads_back(rest);
        assert(s =~= seq![s[0]] + rest);
        lemma_escape_fish_append(seq![s[0]], rest);
        let one = seq![s[0]];
        assert(one.drop_last() =~= Seq::<char>::empty());
        assert(escape_fish(one.drop_last()) =~= Seq::<char>::empty());
        assert(escape_fish(one) =~= escape_char(s[0]));
        lemma_unbackslash_step(s[0], escape_char(s[0]), escape_fish(rest));
    }
}

/// A bare value is written exactly as it is, without quotes.
pub proof fn bare_values_are_unquoted(s: Seq<char>)
    requires
        is_bare(s),
    ensures
        quote_fish(s) == s,
{
}

/// A value that is not bare is enclosed in single quotes.
pub proof fn other_values_are_single_quoted(s: Seq<char>)
    requires
        !is_bare(s),
    ensures
        quote_fish(s).len() >= 2,
        quote_fish(s)[0] == '\'',
        quote_fish(s).last() == '\'',
        quote_fish(s) == seq!['\''] + escape_fish(s) + seq!['\''],
{
}

fn is_bare_value(s: &str) -> (r: bool)
    ensures
        r == is_bare(s@),
{
    let n = s.unicode_len();
    let mut i: usize = 0;
    while i < n
        invariant
            n == s@.len(),
            i <= n,
            forall|k: int| 0 <= k < i ==> #[trigger] is_bare_char(s@[k]),
        decreases n - i,
    {
        let c = s.get_char(i);
        let ok = is_alphanumeric(c) || c == '_' || c == '-' || c == '.' || c == '/' || c == '~'
            || c == ':';
        if !ok {
            assert(!is_bare_char(s@[i as int]));
            return false;
        }
        i = i + 1;
    }
    true
}

/// Quote a fish value with single quotes when needed.
/// Bare values (alphanumeric + safe symbols) are emitted without quotes.
pub fn quote_fish_value(s: &str) -> (r: String)
    ensures
        r@ == quote_fish(s@),
{
    if is_bare_value(s) {
        String::from_str(s)
    } else {
        let n = s.unicode_len();
        let mut r = String::new();
        push_char(&mut r, '\'');
        let mut i: usize = 0;
        while i < n
            invariant
                n == s@.len(),
                i <= n,
                r@ == seq!['\''] + escape_fish(s@.take(i as int)),
            decreases n - i,
        {
            let c = s.get_char(i);
            assert(s@.take(i + 1).drop_last() =~= s@.take(i as int));
            if c == '\\' {
                push_char(&mut r, '\\');
                push_char(&mut r, '\\');
            } else if c == '\'' {
                push_char(&mut r, '\\');
                push_char(&mut r, '\'');
            } else {
                push_char(&mut r, c);
            }
            assert(r@ =~= seq!['\''] + escape_fish(s@.take(i + 1)));
            i = i + 1;
        }
        push_char(&mut r, '\'');
        assert(s@.take(n as int) =~= s@);
        r
    }
}

/// A character as it is written inside double quotes: backslash, double
/// quote and dollar sign are preceded by a backslash.
pub open spec fn dq_escape_char(c: char) -> Seq<char> {
    if c == '\\' || c == '"' || c == '$' {
        seq!['\\', c]
    } else {
        seq![c]
    }
}

/// `s` escaped for a fish double-quoted string.
pub open spec fn escape_fish_double(s: Seq<char>) -> Seq<char>
    decreases s.len(),
{
    if s.len() == 0 {
        Seq::empty()
    } else {
        escape_fish_double(s.drop_last()) + dq_escape_char(s.last())
    }
}

/// `s` as a fish double-quoted string, taken literally (no expansion).
pub open spec fn double_quote_fish(s: Seq<char>) -> Seq<char> {
    seq!['"'] + escape_fish_double(s) + seq!['"']
}

/// Quote a fish value with double quotes, escaping `\`, `"` and `$`.
pub fn double_quote_fish_value(s: &str) -> (r: String)
    ensures
        r@ == double_quote_fish(s@),
{
    let n = s.unicode_len();
    let mut r = String::new();
    push_char(&mut r, '"');
    let mut i: usize = 0;
    while i < n
        invariant
            n == s@.len(),
            i <= n,
            r@ == seq!['"'] + escape_fish_double(s@.take(i as int)),
        decreases n - i,
    {
        let c = s.get_char(i);
        assert(s@.take(i + 1).drop_last() =~= s@.take(i as int));
        if c == '\\' || c == '"' || c == '$' {
            push_char(&mut r, '\\');
        }
        push_char(&mut r, c);
        assert(r@ =~= seq!['"'] + escape_fish_double(s@.take(i + 1)));
        i = i + 1;
    }
    push_char(&mut r, '"');
    assert(s@.take(n as int) =~= s@);
    r
}

proof fn lemma_escape_fish_double_append(a: Seq<char>, b: Seq<char>)
    ensures
        escape_fish_double(a + b) == escape_fish_double(a) + escape_fish_double(b),
    decreases b.len(),
{
    if b.len() == 0 {
        assert(a + b =~= a);
        assert(escape_fish_double(b) =~= Seq::<char>::empty());
        assert(escape_fish_double(a) + escape_fish_double(b) =~= escape_fish_double(a));
    } else {
        lemma_escape_fish_double_append(a, b.drop_last());
        assert((a + b).drop_last() =~= a + b.drop_last());
        assert((a + b).last() == b.last());
    }
}

/// Reading a double-quoted value back (a backslash stands for the character
/// after it) gives the value back: escaping loses nothing.
pub proof fn escape_fish_double_reads_back(s: Seq<char>)
    ensures
        unbackslash(escape_fish_double(s)) == s,
    decreases s.len(),
{
    if s.len() > 0 {
        let rest = s.subrange(1, s.len() as int);
        escape_fish_double_reads_back(rest);
        assert(s =~= seq![s[0]] + rest);
        lemma_escape_fish_double_append(seq![s[0]], rest);
        let one = seq![s[0]];
        assert(one.drop_last() =~= Seq::<char>::empty());
        assert(escape_fish_double(one.drop_last()) =~= Seq::<char>::empty());
        assert(escape_fish_double(one) =~= dq_escape_char(s[0]));
        lemma_unbackslash_step(s[0], dq_escape_char(s[0]), escape_fish_double(rest));
    }
}

/// A text without backslashes, double quotes or dollar signs is written
/// between the double quotes unchanged.
pub proof fn double_quoting_keeps_plain_text(s: Seq<char>)
    requires
        forall|i: int| 0 <= i < s.len() ==> #[trigger] s[i] != '\\' && s[i] != '"' && s[i] != '$',
    ensures
        escape_fish_double(s) == s,
    decreases s.len(),
{
    if s.len() > 0 {
        assert forall|i: int| 0 <= i < s.drop_last().len() implies #[trigger] s.drop_last()[i]
            != '\\' && s.drop_last()[i] != '"' && s.drop_last()[i] != '$' by {
            assert(s.drop_last()[i] == s[i]);
        }
        double_quoting_keeps_plain_text(s.drop_last());
        assert(s.drop_last().push(s.last()) =~= s);
    }
}

/// A `header … end` block: the header line, the body lines one level
/// deeper, and `end`, joined by newlines.
pub open spec fn block_text(ctx: RenderContext, header: Seq<char>, body: Seq<Seq<char>>) -> Seq<char> {
    join(
        seq![ctx.spec_indent() + header] + prefixed(ctx.spec_deeper().spec_indent(), body) + seq![
            ctx.spec_indent() + "end"@,
        ],
        "\n"@,
    )
}

/// Renders a `header … end` block whose body lines are indented one level.
pub fn render_block(ctx: &RenderContext, header: &str, body: &Vec<String>) -> (r: String)
    requires
        ctx.fits(),
        ctx.deeper_fits(),
    ensures
        r@ == block_text(*ctx, header@, views(body@)),
{
    let indent = ctx.indent();
    let inner = ctx.deeper();
    let inner_indent = inner.indent();
    let mut out: Vec<String> = Vec::new();
    push_part(&mut out, cat2(indent.as_str(), header));
    push_prefixed(&mut out, inner_indent.as_str(), body);
    push_part(&mut out, cat2(indent.as_str(), "end"));
    assert(views(out@) =~= seq![ctx.spec_indent() + header@] + prefixed(
        ctx.spec_deeper().spec_indent(),
        views(body@),
    ) + seq![ctx.spec_indent() + "end"@]);
    join_strings(&out, "\n")
}

} // verus!
