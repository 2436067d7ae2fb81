//! Text building blocks shared by every renderer: joining, indentation,
//! decimal formatting, line splitting and the quoting/escaping rules of the
//! target formats.
use vstd::prelude::*;

verus! {

// ── Sequences of strings ──────────────────────────────────────────────────────

/// The character views of a sequence of strings.
pub open spec fn views(v: Seq<String>) -> Seq<Seq<char>> {
    v.map_values(|s: String| s@)
}

/// `parts` joined with `sep` between consecutive elements (as `[T]::join`).
pub open spec fn join(parts: Seq<Seq<char>>, sep: Seq<char>) -> Seq<char>
    decreases parts.len(),
{
    if parts.len() == 0 {
        Seq::empty()
    } else if parts.len() == 1 {
        parts[0]
    } else {
        join(parts.drop_last(), sep) + sep + parts.last()
    }
}

/// Concatenation of all elements of `parts`.
pub open spec fn concat(parts: Seq<Seq<char>>) -> Seq<char>
    decreases parts.len(),
{
    if parts.len() == 0 {
        Seq::empty()
    } else {
        concat(parts.drop_last()) + parts.last()
    }
}

/// `Some(x)` becomes the one-element sequence, `None` the empty one.
pub open spec fn opt_seq(o: Option<Seq<char>>) -> Seq<Seq<char>> {
    match o {
        Some(x) => seq![x],
        None => Seq::empty(),
    }
}

/// A one-element sequence when `b` holds, the empty sequence otherwise.
pub open spec fn if_seq(b: bool, x: Seq<char>) -> Seq<Seq<char>> {
    if b {
        seq![x]
    } else {
        Seq::empty()
    }
}

/// The view of an optional owned string.
pub open spec fn opt_view(o: Option<String>) -> Option<Seq<char>> {
    match o {
        Some(s) => Some(s@),
        None => None,
    }
}

/// The view of an optional borrowed string.
pub open spec fn opt_str_view(o: Option<&str>) -> Option<Seq<char>> {
    match o {
        Some(s) => Some(s@),
        None => None,
    }
}

/// The view of a validation outcome.
pub open spec fn result_view(r: Result<(), String>) -> Result<(), Seq<char>> {
    match r {
        Ok(()) => Ok(()),
        Err(e) => Err(e@),
    }
}

/// Borrows the contents of an optional string (as `Option::as_deref`).
pub fn opt_as_str(o: &Option<String>) -> (r: Option<&str>)
    ensures
        opt_str_view(r) == opt_view(*o),
{
    match o {
        Some(s) => Some(s.as_str()),
        None => None,
    }
}

pub proof fn lemma_views_push(v: Seq<String>, s: String)
    ensures
        views(v.push(s)) == views(v).push(s@),
{
    assert(views(v.push(s)) =~= views(v).push(s@));
}

pub proof fn lemma_join_push(parts: Seq<Seq<char>>, sep: Seq<char>, x: Seq<char>)
    ensures
        join(parts.push(x), sep) == if parts.len() == 0 {
            x
        } else {
            join(parts, sep) + sep + x
        },
{
    assert(parts.push(x).drop_last() =~= parts);
}

pub proof fn lemma_concat_push(parts: Seq<Seq<char>>, x: Seq<char>)
    ensures
        concat(parts.push(x)) == concat(parts) + x,
{
    assert(parts.push(x).drop_last() =~= parts);
}

/// A join starts with the first part.
pub proof fn lemma_join_first(parts: Seq<Seq<char>>, sep: Seq<char>)
    requires
        parts.len() >= 1,
    ensures
        parts[0].is_prefix_of(join(parts, sep)),
    decreases parts.len(),
{
    if parts.len() > 1 {
        lemma_join_first(parts.drop_last(), sep);
        let j = join(parts.drop_last(), sep);
        assert((j + sep + parts.last()).subrange(0, parts[0].len() as int) =~= j.subrange(
            0,
            parts[0].len() as int,
        ));
    } else {
        assert(join(parts, sep).subrange(0, parts[0].len() as int) =~= parts[0]);
    }
}

/// A join ends with the last part.
pub proof fn lemma_join_last(parts: Seq<Seq<char>>, sep: Seq<char>)
    requires
        parts.len() >= 1,
    ensures
        parts.last().is_suffix_of(join(parts, sep)),
{
    let j = join(parts, sep);
    let l = parts.last();
    if parts.len() > 1 {
        let a = join(parts.drop_last(), sep) + sep;
        assert(j == a + l);
        assert((a + l).subrange(a.len() as int, (a + l).len() as int) =~= l);
    } else {
        assert(j.subrange(0, j.len() as int) =~= l);
    }
}

/// Reading back a backslash-escaped text: a backslash stands for the
/// character after it, every other character for itself.
pub open spec fn unbackslash(t: Seq<char>) -> Seq<char>
    decreases t.len(),
{
    if t.len() == 0 {
        Seq::empty()
    } else if t[0] == '\\' && t.len() >= 2 {
        seq![t[1]] + unbackslash(t.subrange(2, t.len() as int))
    } else {
        seq![t[0]] + unbackslash(t.subrange(1, t.len() as int))
    }
}

/// Reading back a character escaped as `\c` (or written as itself when it
/// is no backslash), followed by more text.
pub proof fn lemma_unbackslash_step(c: char, escaped: Seq<char>, rest: Seq<char>)
    requires
        escaped == seq!['\\', c] || (escaped == seq![c] && c != '\\'),
    ensures
        unbackslash(escaped + rest) == seq![c] + unbackslash(rest),
{
    let t = escaped + rest;
    if escaped.len() == 2 {
        assert(t.subrange(2, t.len() as int) =~= rest);
    } else {
        assert(t.subrange(1, t.len() as int) =~= rest);
    }
}

/// Spaces add up.
pub proof fn lemma_spaces_add(a: nat, b: nat)
    ensures
        spaces(a + b) == spaces(a) + spaces(b),
{
    assert(spaces(a + b) =~= spaces(a) + spaces(b));
}

/// `prefix` and the text of the boolean, when there is one.
pub open spec fn bool_entry(prefix: Seq<char>, o: Option<bool>) -> Seq<Seq<char>> {
    match o {
        Some(v) => seq![prefix + bool_str(v)],
        None => Seq::empty(),
    }
}

/// `prefix`, the string and `suffix`, when there is a string.
pub open spec fn text_entry(prefix: Seq<char>, o: Option<String>, suffix: Seq<char>) -> Seq<
    Seq<char>,
> {
    match o {
        Some(v) => seq![prefix + v@ + suffix],
        None => Seq::empty(),
    }
}

/// `prefix` and the decimal text of the number, when there is one.
pub open spec fn num_entry(prefix: Seq<char>, o: Option<int>) -> Seq<Seq<char>> {
    match o {
        Some(v) => seq![prefix + int_str(v)],
        None => Seq::empty(),
    }
}

/// Pushes `prefix` and the text of the boolean, when there is one.
pub fn push_bool_entry(v: &mut Vec<String>, prefix: &str, o: Option<bool>)
    ensures
        views(final(v)@) == views(old(v)@) + bool_entry(prefix@, o),
{
    match o {
        Some(b) => {
            push_part(v, cat2(prefix, bool_text(b)));
        },
        None => {},
    }
}

/// Pushes `prefix`, the string and `suffix`, when there is a string.
pub fn push_text_entry(v: &mut Vec<String>, prefix: &str, o: &Option<String>, suffix: &str)
    ensures
        views(final(v)@) == views(old(v)@) + text_entry(prefix@, *o, suffix@),
{
    match o {
        Some(s) => {
            push_part(v, cat3(prefix, s.as_str(), suffix));
        },
        None => {},
    }
}

/// Pushes `prefix` and the decimal text of the number, when there is one.
pub fn push_num_entry(v: &mut Vec<String>, prefix: &str, o: Option<i64>)
    ensures
        views(final(v)@) == views(old(v)@) + num_entry(
            prefix@,
            match o {
                Some(n) => Some(n as int),
                None => None,
            },
        ),
{
    match o {
        Some(n) => {
            let t = i64_str(n);
            push_part(v, cat2(prefix, t.as_str()));
        },
        None => {},
    }
}

/// Moves all elements of `items` to the end of `v`.
pub fn append_parts(v: &mut Vec<String>, items: Vec<String>)
    ensures
        views(final(v)@) == views(old(v)@) + views(items@),
{
    let mut items = items;
    let ghost a = v@;
    let ghost b = items@;
    v.append(&mut items);
    assert(views(a + b) =~= views(a) + views(b));
}

/// Pushes `s` on `v`, stating the effect on the views.
pub fn push_part(v: &mut Vec<String>, s: String)
    ensures
        views(final(v)@) == views(old(v)@).push(s@),
{
    proof {
        lemma_views_push(v@, s);
    }
    v.push(s);
}

/// Pushes a copy of `s` on `v`.
pub fn push_str_part(v: &mut Vec<String>, s: &str)
    ensures
        views(final(v)@) == views(old(v)@).push(s@),
{
    push_part(v, String::from_str(s));
}

/// Every element of `lines` with `prefix` in front.
pub open spec fn prefixed(prefix: Seq<char>, lines: Seq<Seq<char>>) -> Seq<Seq<char>> {
    Seq::new(lines.len(), |i: int| prefix + lines[i])
}

/// Appends every element of `lines`, with `prefix` in front, to `out`.
pub fn push_prefixed(out: &mut Vec<String>, prefix: &str, lines: &Vec<String>)
    ensures
        views(final(out)@) == views(old(out)@) + prefixed(prefix@, views(lines@)),
{
    let ghost start = views(out@);
    let mut i: usize = 0;
    while i < lines.len()
        invariant
            i <= lines@.len(),
            views(out@) == start + prefixed(prefix@, views(lines@).take(i as int)),
        decreases lines@.len() - i,
    {
        push_part(out, cat2(prefix, lines[i].as_str()));
        assert(prefixed(prefix@, views(lines@).take(i + 1)) =~= prefixed(
            prefix@,
            views(lines@).take(i as int),
        ).push(prefix@ + lines@[i as int]@));
        i = i + 1;
    }
    assert(views(lines@).take(lines@.len() as int) =~= views(lines@));
}

/// Copies an optional owned string.
pub fn opt_string(o: &Option<String>) -> (r: Option<String>)
    ensures
        opt_view(r) == opt_view(*o),
{
    match opt_as_str(o) {
        Some(s) => Some(owned(s)),
        None => None,
    }
}

/// Copies a borrowed string into an owned one.
pub fn owned(s: &str) -> (r: String)
    ensures
        r@ == s@,
{
    String::from_str(s)
}

/// Copies a slice of borrowed strings into a vector of owned ones.
pub fn owned_all(items: &[&str]) -> (r: Vec<String>)
    ensures
        views(r@) == items@.map_values(|s: &str| s@),
{
    let mut r: Vec<String> = Vec::new();
    let mut i: usize = 0;
    while i < items.len()
        invariant
            i <= items@.len(),
            views(r@) == items@.take(i as int).map_values(|s: &str| s@),
        decreases items@.len() - i,
    {
        push_str_part(&mut r, items[i]);
        assert(items@.take(i + 1).map_values(|s: &str| s@) =~= items@.take(i as int).map_values(
            |s: &str| s@,
        ).push(items@[i as int]@));
        i = i + 1;
    }
    assert(items@.take(items@.len() as int) =~= items@);
    r
}

/// The elements of `parts` joined by `sep`.
pub fn join_strings(parts: &Vec<String>, sep: &str) -> (r: String)
    ensures
        r@ == join(views(parts@), sep@),
{
    let mut r = String::new();
    let mut i: usize = 0;
    while i < parts.len()
        invariant
            i <= parts@.len(),
            r@ == join(views(parts@).take(i as int), sep@),
        decreases parts@.len() - i,
    {
        proof {
            lemma_join_push(views(parts@).take(i as int), sep@, parts@[i as int]@);
            assert(views(parts@).take(i + 1) =~= views(parts@).take(i as int).push(
                parts@[i as int]@,
            ));
        }
        if i > 0 {
            r.append(sep);
        }
        r.append(parts[i].as_str());
        i = i + 1;
    }
    assert(views(parts@).take(parts@.len() as int) =~= views(parts@));
    r
}

/// The concatenation of all elements of `parts`.
pub fn concat_strings(parts: &Vec<String>) -> (r: String)
    ensures
        r@ == concat(views(parts@)),
{
    let mut r = String::new();
    let mut i: usize = 0;
    while i < parts.len()
        invariant
            i <= parts@.len(),
            r@ == concat(views(parts@).take(i as int)),
        decreases parts@.len() - i,
    {
        proof {
            lemma_concat_push(views(parts@).take(i as int), parts@[i as int]@);
            assert(views(parts@).take(i + 1) =~= views(parts@).take(i as int).push(
                parts@[i as int]@,
            ));
        }
        r.append(parts[i].as_str());
        i = i + 1;
    }
    assert(views(parts@).take(parts@.len() as int) =~= views(parts@));
    r
}

/// Concatenation of two strings.
pub fn cat2(a: &str, b: &str) -> (r: String)
    ensures
        r@ == a@ + b@,
{
    let mut r = String::from_str(a);
    r.append(b);
    r
}

/// Concatenation of three strings.
pub fn cat3(a: &str, b: &str, c: &str) -> (r: String)
    ensures
        r@ == a@ + b@ + c@,
{
    let mut r = String::from_str(a);
    r.append(b);
    r.append(c);
    r
}

/// Concatenation of four strings.
pub fn cat4(a: &str, b: &str, c: &str, d: &str) -> (r: String)
    ensures
        r@ == a@ + b@ + c@ + d@,
{
    let mut r = String::from_str(a);
    r.append(b);
    r.append(c);
    r.append(d);
    r
}

/// Concatenation of five strings.
pub fn cat5(a: &str, b: &str, c: &str, d: &str, e: &str) -> (r: String)
    ensures
        r@ == a@ + b@ + c@ + d@ + e@,
{
    let mut r = String::from_str(a);
    r.append(b);
    r.append(c);
    r.append(d);
    r.append(e);
    r
}

/// `String::push` from std: appends one character.
#[verifier::external_body]
pub(crate) fn push_char(s: &mut String, c: char)
    ensures
        final(s)@ == old(s)@.push(c),
{
    s.push(c);
}

// ── Spaces and padding ────────────────────────────────────────────────────────

/// `n` space characters.
pub open spec fn spaces(n: nat) -> Seq<char> {
    Seq::new(n, |_i: int| ' ')
}

/// A string of `n` spaces.
pub fn spaces_string(n: usize) -> (r: String)
    ensures
        r@ == spaces(n as nat),
{
    let mut r = String::new();
    let mut i: usize = 0;
    while i < n
        invariant
            i <= n,
            r@ == spaces(i as nat),
        decreases n - i,
    {
        push_char(&mut r, ' ');
        assert(r@ =~= spaces((i + 1) as nat));
        i = i + 1;
    }
    r
}

/// `s` followed by spaces up to `width` characters (as the `{:<width}`
/// format specifier); a longer `s` is kept whole.
pub open spec fn pad_right(s: Seq<char>, width: nat) -> Seq<char> {
    if s.len() < width {
        s + spaces((width - s.len()) as nat)
    } else {
        s
    }
}

/// Left-aligns `s` in a field of `width` characters.
pub fn pad_right_string(s: &str, width: usize) -> (r: String)
    ensures
        r@ == pad_right(s@, width as nat),
{
    let len = s.unicode_len();
    let mut r = String::from_str(s);
    if len < width {
        let pad = spaces_string(width - len);
        r.append(pad.as_str());
    }
    r
}

// ── Decimal formatting ────────────────────────────────────────────────────────

/// The decimal digit character for `d < 10`.
pub open spec fn digit_char(d: nat) -> char {
    if d == 0 {
        '0'
    } else if d == 1 {
        '1'
    } else if d == 2 {
        '2'
    } else if d == 3 {
        '3'
    } else if d == 4 {
        '4'
    } else if d == 5 {
        '5'
    } else if d == 6 {
        '6'
    } else if d == 7 {
        '7'
    } else if d == 8 {
        '8'
    } else {
        '9'
    }
}

/// The decimal representation of `n` (as `Display` for unsigned integers).
pub open spec fn nat_str(n: nat) -> Seq<char>
    decreases n,
{
    if n < 10 {
        seq![digit_char(n)]
    } else {
        nat_str(n / 10).push(digit_char(n % 10))
    }
}

/// The decimal representation of `i` (as `Display` for signed integers).
pub open spec fn int_str(i: int) -> Seq<char> {
    if i < 0 {
        seq!['-'] + nat_str((-i) as nat)
    } else {
        nat_str(i as nat)
    }
}

fn digit(d: u64) -> (c: char)
    requires
        d < 10,
    ensures
        c == digit_char(d as nat),
{
    if d == 0 {
        '0'
    } else if d == 1 {
        '1'
    } else if d == 2 {
        '2'
    } else if d == 3 {
        '3'
    } else if d == 4 {
        '4'
    } else if d == 5 {
        '5'
    } else if d == 6 {
        '6'
    } else if d == 7 {
        '7'
    } else if d == 8 {
        '8'
    } else {
        '9'
    }
}

/// `n.to_string()` for an unsigned integer.
pub fn u64_str(n: u64) -> (r: String)
    ensures
        r@ == nat_str(n as nat),
    decreases n,
{
    if n < 10 {
        let mut r = String::new();
        push_char(&mut r, digit(n));
        assert(r@ =~= nat_str(n as nat));
        r
    } else {
        let mut r = u64_str(n / 10);
        push_char(&mut r, digit(n % 10));
        r
    }
}

/// `n.to_string()` for a signed integer.
pub fn i64_str(n: i64) -> (r: String)
    ensures
        r@ == int_str(n as int),
{
    if n < 0 {
        let m: u64 = ((-(n + 1)) as u64) + 1;
        let digits = u64_str(m);
        let mut r = String::new();
        push_char(&mut r, '-');
        r.append(digits.as_str());
        assert(r@ =~= int_str(n as int));
        r
    } else {
        u64_str(n as u64)
    }
}

/// `"true"` or `"false"` (as `Display` for `bool`).
pub open spec fn bool_str(b: bool) -> Seq<char> {
    if b {
        "true"@
    } else {
        "false"@
    }
}

/// The text of a boolean.
pub fn bool_text(b: bool) -> (r: &'static str)
    ensures
        r@ == bool_str(b),
{
    if b {
        "true"
    } else {
        "false"
    }
}

/// `s` as a one-element sequence, or nothing when `s` is empty.
pub open spec fn nonempty(s: Seq<char>) -> Seq<Seq<char>> {
    if s.len() == 0 {
        Seq::empty()
    } else {
        seq![s]
    }
}

/// Pushes `s` on `parts` unless it is empty.
pub fn push_nonempty(parts: &mut Vec<String>, s: String)
    ensures
        views(final(parts)@) == views(old(parts)@) + nonempty(s@),
{
    if s.as_str().unicode_len() > 0 {
        push_part(parts, s);
    }
}

/// Every element of `ls` followed by a newline, all concatenated.
pub open spec fn terminated(ls: Seq<Seq<char>>) -> Seq<char> {
    concat(Seq::new(ls.len(), |i: int| ls[i] + "\n"@))
}

/// `s` with a newline appended unless it already ends with one.
pub open spec fn with_newline(s: Seq<char>) -> Seq<char> {
    if s.len() > 0 && s.last() == '\n' {
        s
    } else {
        s + "\n"@
    }
}

/// Each element of `lines` followed by a newline, concatenated.
pub fn terminate_lines(lines: &Vec<String>) -> (r: String)
    ensures
        r@ == terminated(views(lines@)),
{
    let mut parts: Vec<String> = Vec::new();
    let mut i: usize = 0;
    while i < lines.len()
        invariant
            i <= lines@.len(),
            views(parts@) == Seq::new(i as nat, |k: int| lines@[k]@ + "\n"@),
        decreases lines@.len() - i,
    {
        push_part(&mut parts, cat2(lines[i].as_str(), "\n"));
        assert(Seq::new((i + 1) as nat, |k: int| lines@[k]@ + "\n"@) =~= Seq::new(
            i as nat,
            |k: int| lines@[k]@ + "\n"@,
        ).push(lines@[i as int]@ + "\n"@));
        i = i + 1;
    }
    assert(views(parts@) =~= Seq::new(views(lines@).len(), |k: int| views(lines@)[k] + "\n"@));
    concat_strings(&parts)
}

/// `s` with a newline appended unless it already ends with one.
pub fn ensure_newline(s: &str) -> (r: String)
    ensures
        r@ == with_newline(s@),
{
    if ends_with_char(s, '\n') {
        owned(s)
    } else {
        cat2(s, "\n")
    }
}

// ── Optional `key = value` entries ────────────────────────────────────────────

/// `key = value` as a one-element sequence, or nothing without a value.
pub open spec fn kv_opt(key: Seq<char>, value: Option<Seq<char>>) -> Seq<Seq<char>> {
    match value {
        Some(v) => seq![key + " = "@ + v],
        None => Seq::empty(),
    }
}

/// Pushes `key = value` when there is a value.
pub fn push_kv_opt(lines: &mut Vec<String>, key: &str, value: Option<String>)
    ensures
        views(final(lines)@) == views(old(lines)@) + kv_opt(
            key@,
            match value {
                Some(v) => Some(v@),
                None => None,
            },
        ),
{
    match value {
        Some(v) => {
            push_part(lines, cat3(key, " = ", v.as_str()));
        },
        None => {},
    }
}

/// The text of an optional boolean.
pub open spec fn bool_val(o: Option<bool>) -> Option<Seq<char>> {
    match o {
        Some(v) => Some(bool_str(v)),
        None => None,
    }
}

/// The decimal text of an optional number.
pub open spec fn num_val(o: Option<nat>) -> Option<Seq<char>> {
    match o {
        Some(v) => Some(nat_str(v)),
        None => None,
    }
}

/// Renders an optional boolean.
pub fn bool_value(o: Option<bool>) -> (r: Option<String>)
    ensures
        (match r {
            Some(v) => Some(v@),
            None => None,
        }) == bool_val(o),
{
    match o {
        Some(v) => Some(String::from_str(bool_text(v))),
        None => None,
    }
}

/// Renders an optional 32-bit number.
pub fn u32_value(o: Option<u32>) -> (r: Option<String>)
    ensures
        (match r {
            Some(v) => Some(v@),
            None => None,
        }) == num_val(
            match o {
                Some(n) => Some(n as nat),
                None => None,
            },
        ),
{
    match o {
        Some(n) => Some(u64_str(n as u64)),
        None => None,
    }
}

/// Renders an optional 64-bit number.
pub fn u64_value(o: Option<u64>) -> (r: Option<String>)
    ensures
        (match r {
            Some(v) => Some(v@),
            None => None,
        }) == num_val(
            match o {
                Some(n) => Some(n as nat),
                None => None,
            },
        ),
{
    match o {
        Some(n) => Some(u64_str(n)),
        None => None,
    }
}

// ── Lines ─────────────────────────────────────────────────────────────────────

/// The index of the first `'\n'` at or after `from`, or `s.len()`.
pub open spec fn next_newline(s: Seq<char>, from: int) -> int
    decreases s.len() - from,
{
    if from >= s.len() {
        s.len() as int
    } else if s[from] == '\n' {
        from
    } else {
        next_newline(s, from + 1)
    }
}

/// A line without its trailing `'\r'`, if any.
pub open spec fn strip_cr(l: Seq<char>) -> Seq<char> {
    if l.len() > 0 && l.last() == '\r' {
        l.drop_last()
    } else {
        l
    }
}

/// The lines of `s` from index `from` on, as `str::lines` yields them:
/// split at `'\n'`, one trailing `'\r'` dropped from each line, and no empty
/// line after a final line terminator.
pub open spec fn lines_from(s: Seq<char>, from: int) -> Seq<Seq<char>>
    decreases s.len() + 1 - from,
{
    if from < 0 || from >= s.len() {
        Seq::empty()
    } else {
        proof {
            lemma_next_newline(s, from);
        }
        let e = next_newline(s, from);
        seq![strip_cr(s.subrange(from, e))] + lines_from(s, e + 1)
    }
}

/// The lines of `s` (as `str::lines`).
pub open spec fn lines(s: Seq<char>) -> Seq<Seq<char>> {
    lines_from(s, 0)
}

pub proof fn lemma_next_newline(s: Seq<char>, from: int)
    requires
        0 <= from <= s.len(),
    ensures
        from <= next_newline(s, from) <= s.len(),
        forall|k: int| from <= k < next_newline(s, from) ==> s[k] != '\n',
        next_newline(s, from) < s.len() ==> s[next_newline(s, from)] == '\n',
    decreases s.len() - from,
{
    if from < s.len() && s[from] != '\n' {
        lemma_next_newline(s, from + 1);
    }
}

proof fn lemma_next_newline_at(s: Seq<char>, from: int, e: int)
    requires
        0 <= from <= e <= s.len(),
        forall|k: int| from <= k < e ==> s[k] != '\n',
        e < s.len() ==> s[e] == '\n',
    ensures
        next_newline(s, from) == e,
    decreases e - from,
{
    if from < e {
        lemma_next_newline_at(s, from + 1, e);
    }
}

/// The lines of `s`, as `str::lines` splits them.
pub fn split_lines(s: &str) -> (r: Vec<String>)
    ensures
        views(r@) == lines(s@),
{
    let n = s.unicode_len();
    let ghost sv = s@;
    let mut r: Vec<String> = Vec::new();
    let mut start: usize = 0;
    let mut cur = String::new();
    let mut i: usize = 0;
    while i < n
        invariant
            n == sv.len(),
            sv == s@,
            start <= i <= n,
            cur@ == sv.subrange(start as int, i as int),
            forall|k: int| start <= k < i ==> sv[k] != '\n',
            lines(sv) == views(r@) + lines_from(sv, start as int),
        decreases n - i,
    {
        let c = s.get_char(i);
        if c == '\n' {
            proof {
                lemma_next_newline_at(sv, start as int, i as int);
            }
            let line = strip_cr_string(&cur);
            proof {
                lemma_views_push(r@, line);
                assert(lines_from(sv, start as int) =~= seq![line@] + lines_from(sv, i + 1));
            }
            r.push(line);
            cur = String::new();
            start = i + 1;
            assert(cur@ =~= sv.subrange(start as int, (i + 1) as int));
        } else {
            push_char(&mut cur, c);
            assert(cur@ =~= sv.subrange(start as int, (i + 1) as int));
        }
        i = i + 1;
    }
    if start < n {
        proof {
            lemma_next_newline_at(sv, start as int, n as int);
        }
        let line = strip_cr_string(&cur);
        proof {
            lemma_views_push(r@, line);
            assert(lines_from(sv, start as int) =~= seq![line@] + lines_from(sv, n + 1));
        }
        r.push(line);
    }
    assert(views(r@) =~= lines(sv));
    r
}

fn strip_cr_string(l: &String) -> (r: String)
    ensures
        r@ == strip_cr(l@),
{
    let n = l.as_str().unicode_len();
    if n > 0 && l.as_str().get_char(n - 1) == '\r' {
        let mut r = String::new();
        let mut i: usize = 0;
        while i < n - 1
            invariant
                n == l@.len(),
                i <= n - 1,
                r@ == l@.subrange(0, i as int),
            decreases n - 1 - i,
        {
            push_char(&mut r, l.as_str().get_char(i));
            assert(r@ =~= l@.subrange(0, i + 1));
            i = i + 1;
        }
        assert(r@ =~= l@.drop_last());
        r
    } else {
        l.clone()
    }
}

/// Whether `s` ends with the character `c` (as `str::ends_with`).
fn ends_with_char(s: &str, c: char) -> (r: bool)
    ensures
        r == (s@.len() > 0 && s@.last() == c),
{
    let n = s.unicode_len();
    n > 0 && s.get_char(n - 1) == c
}

/// Whether `s` contains the character `c` (as `str::contains`).
pub fn contains_char(s: &str, c: char) -> (r: bool)
    ensures
        r == s@.contains(c),
{
    let n = s.unicode_len();
    let mut i: usize = 0;
    while i < n
        invariant
            n == s@.len(),
            i <= n,
            forall|k: int| 0 <= k < i ==> s@[k] != c,
        decreases n - i,
    {
        if s.get_char(i) == c {
            assert(s@[i as int] == c);
            return true;
        }
        i = i + 1;
    }
    false
}

/// Whether `s` is empty.
pub fn is_empty_str(s: &str) -> (r: bool)
    ensures
        r == (s@.len() == 0),
{
    s.unicode_len() == 0
}

// ── Occurrences ───────────────────────────────────────────────────────────────

/// `t` occurs in `s` as a contiguous piece.
pub open spec fn occurs_in(t: Seq<char>, s: Seq<char>) -> bool {
    exists|i: int| 0 <= i && i + t.len() <= s.len() && #[trigger] s.subrange(i, i + t.len()) == t
}

/// `t` occurs in `s` at position `i`.
pub proof fn lemma_occurs_at(t: Seq<char>, s: Seq<char>, i: int)
    requires
        0 <= i,
        i + t.len() <= s.len(),
        s.subrange(i, i + t.len()) =~= t,
    ensures
        occurs_in(t, s),
{
}

/// What occurs in a text occurs in every text around it.
pub proof fn lemma_occurs_within(t: Seq<char>, a: Seq<char>, b: Seq<char>)
    requires
        occurs_in(t, a),
    ensures
        occurs_in(t, a + b),
        occurs_in(t, b + a),
{
    let i = choose|i: int| 0 <= i && i + t.len() <= a.len() && #[trigger] a.subrange(i, i + t.len()) == t;
    assert((a + b).subrange(i, i + t.len()) =~= a.subrange(i, i + t.len()));
    assert((b + a).subrange(b.len() + i, b.len() + i + t.len()) =~= a.subrange(i, i + t.len()));
    lemma_occurs_at(t, a + b, i);
    lemma_occurs_at(t, b + a, b.len() + i);
}

/// What occurs in a piece of `s` occurs in `s`.
pub proof fn lemma_occurs_trans(t: Seq<char>, a: Seq<char>, s: Seq<char>)
    requires
        occurs_in(t, a),
        occurs_in(a, s),
    ensures
        occurs_in(t, s),
{
    let i = choose|i: int| 0 <= i && i + t.len() <= a.len() && #[trigger] a.subrange(i, i + t.len()) == t;
    let j = choose|j: int| 0 <= j && j + a.len() <= s.len() && #[trigger] s.subrange(j, j + a.len()) == a;
    assert(s.subrange(j + i, j + i + t.len()) =~= a.subrange(i, i + t.len()));
    lemma_occurs_at(t, s, j + i);
}

/// Every part of a concatenation occurs in it.
pub proof fn lemma_concat_occurs(parts: Seq<Seq<char>>, k: int)
    requires
        0 <= k < parts.len(),
    ensures
        occurs_in(parts[k], concat(parts)),
    decreases parts.len(),
{
    let c = concat(parts.drop_last());
    assert(concat(parts) == c + parts.last());
    if k == parts.len() - 1 {
        lemma_occurs_at(parts.last(), parts.last(), 0);
        lemma_occurs_within(parts.last(), parts.last(), c);
    } else {
        lemma_concat_occurs(parts.drop_last(), k);
        assert(parts.drop_last()[k] == parts[k]);
        lemma_occurs_within(parts[k], c, parts.last());
    }
}

/// Every part of a join occurs in it, each after the first together with
/// the separator in front of it.
pub proof fn lemma_join_occurs(parts: Seq<Seq<char>>, sep: Seq<char>, k: int)
    requires
        0 <= k < parts.len(),
    ensures
        occurs_in(parts[k], join(parts, sep)),
        k > 0 ==> occurs_in(sep + parts[k], join(parts, sep)),
    decreases parts.len(),
{
    if parts.len() == 1 {
        assert(join(parts, sep) == parts[0]);
        lemma_occurs_at(parts[0], parts[0], 0);
    } else {
        let j = join(parts.drop_last(), sep);
        let l = parts.last();
        assert(join(parts, sep) =~= j + (sep + l));
        if k == parts.len() - 1 {
            lemma_occurs_at(sep + l, sep + l, 0);
            lemma_occurs_within(sep + l, sep + l, j);
            assert((sep + l).subrange(sep.len() as int, (sep + l).len() as int) =~= l);
            lemma_occurs_at(l, sep + l, sep.len() as int);
            lemma_occurs_within(l, sep + l, j);
        } else {
            lemma_join_occurs(parts.drop_last(), sep, k);
            assert(parts.drop_last()[k] == parts[k]);
            lemma_occurs_within(parts[k], j, sep + l);
            if k > 0 {
                lemma_occurs_within(sep + parts[k], j, sep + l);
            }
        }
    }
}

} // verus!
