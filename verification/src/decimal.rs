//! Decimal texts of numbers (`"0.9"`, `"-13.5"`, `"21"`), as `Display`
//! writes a floating-point number, and comparisons of their values with small
//! whole bounds.
use vstd::prelude::*;

verus! {

/// Whether `c` is an ASCII decimal digit.
pub open spec fn is_digit(c: char) -> bool {
    '0' <= c && c <= '9'
}

/// The value of a decimal digit.
pub open spec fn digit_val(c: char) -> nat {
    (c as int - '0' as int) as nat
}

/// Every character of `s` is a decimal digit.
pub open spec fn all_digits(s: Seq<char>) -> bool {
    forall|i: int| 0 <= i < s.len() ==> is_digit(#[trigger] s[i])
}

/// Every character of `s` is `'0'`.
pub open spec fn all_zeros(s: Seq<char>) -> bool {
    forall|i: int| 0 <= i < s.len() ==> #[trigger] s[i] == '0'
}

/// The number the digits of `s` stand for.
pub open spec fn digits_value(s: Seq<char>) -> nat
    decreases s.len(),
{
    if s.len() == 0 {
        0
    } else {
        digits_value(s.drop_last()) * 10 + digit_val(s.last())
    }
}

/// The index of the first `'.'` in `s`, or `s.len()` when there is none.
pub open spec fn dot_index(s: Seq<char>) -> nat
    decreases s.len(),
{
    if s.len() == 0 {
        0
    } else if s[0] == '.' {
        0
    } else {
        1 + dot_index(s.drop_first())
    }
}

/// The text starts with a minus sign.
pub open spec fn decimal_negative(t: Seq<char>) -> bool {
    t.len() > 0 && t[0] == '-'
}

/// The text without its minus sign.
pub open spec fn unsigned_part(t: Seq<char>) -> Seq<char> {
    if decimal_negative(t) {
        t.drop_first()
    } else {
        t
    }
}

/// The digits before the point.
pub open spec fn int_digits(t: Seq<char>) -> Seq<char> {
    unsigned_part(t).take(dot_index(unsigned_part(t)) as int)
}

/// The text has a decimal point.
pub open spec fn has_point(t: Seq<char>) -> bool {
    dot_index(unsigned_part(t)) < unsigned_part(t).len()
}

/// The digits after the point (none without a point).
pub open spec fn frac_digits(t: Seq<char>) -> Seq<char> {
    if has_point(t) {
        unsigned_part(t).skip(dot_index(unsigned_part(t)) as int + 1)
    } else {
        Seq::empty()
    }
}

/// `t` is `[-]digits[.digits]`: an optional minus sign, at least one digit,
/// and, after a point, at least one digit.
pub open spec fn is_decimal(t: Seq<char>) -> bool {
    &&& int_digits(t).len() > 0
    &&& all_digits(int_digits(t))
    &&& all_digits(frac_digits(t))
    &&& has_point(t) ==> frac_digits(t).len() > 0
}

/// The value of the decimal text `t` lies in `[lo, hi]`: `t` is a decimal,
/// and its integer part and fraction place it between the whole bounds.
/// Any other text (`NaN`, `inf`, `-inf`) lies in no range.
pub open spec fn decimal_within(t: Seq<char>, lo: nat, hi: nat) -> bool {
    let n = digits_value(int_digits(t));
    let whole = all_zeros(frac_digits(t));
    &&& is_decimal(t)
    &&& if decimal_negative(t) {
        lo == 0 && n == 0 && whole
    } else {
        lo <= n && (n < hi || (n == hi && whole))
    }
}

/// The value of the text `t` is zero or below: a decimal that is negative or
/// zero, or `-inf`.  (`NaN`, `inf` and other texts are not.)
pub open spec fn decimal_at_most_zero(t: Seq<char>) -> bool {
    ||| is_decimal(t) && (decimal_negative(t) || (digits_value(int_digits(t)) == 0 && all_zeros(
        frac_digits(t),
    )))
    ||| t == "-inf"@
}

proof fn lemma_dot_index(s: Seq<char>, k: int)
    requires
        0 <= k <= s.len(),
        forall|j: int| 0 <= j < k ==> s[j] != '.',
        k == s.len() || s[k] == '.',
    ensures
        dot_index(s) == k,
    decreases k,
{
    if k > 0 {
        let d = s.drop_first();
        assert forall|j: int| 0 <= j < k - 1 implies d[j] != '.' by {
            assert(d[j] == s[j + 1]);
        }
        if k < s.len() {
            assert(d[k - 1] == s[k]);
        }
        lemma_dot_index(d, k - 1);
    }
}

proof fn lemma_dot_le(s: Seq<char>)
    ensures
        dot_index(s) <= s.len(),
    decreases s.len(),
{
    if s.len() > 0 {
        lemma_dot_le(s.drop_first());
    }
}

proof fn lemma_dot_beyond(s: Seq<char>, k: int)
    requires
        0 <= k < s.len(),
        forall|j: int| 0 <= j <= k ==> s[j] != '.',
    ensures
        k < dot_index(s) <= s.len(),
    decreases k,
{
    let d = s.drop_first();
    lemma_dot_le(s);
    if k > 0 {
        assert forall|j: int| 0 <= j <= k - 1 implies d[j] != '.' by {
            assert(d[j] == s[j + 1]);
        }
        lemma_dot_beyond(d, k - 1);
    }
}

proof fn lemma_digits_step(s: Seq<char>, k: int)
    requires
        0 <= k < s.len(),
    ensures
        digits_value(s.take(k + 1)) == digits_value(s.take(k)) * 10 + digit_val(s[k]),
{
    assert(s.take(k + 1).drop_last() =~= s.take(k));
}

/// The sign, the integer part counted up to 100, and whether the fraction is
/// all zeros, of a decimal text; `None` when the text is not a decimal.
pub fn decimal_parts(s: &str) -> (r: Option<(bool, u64, bool)>)
    ensures
        r is Some <==> is_decimal(s@),
        r matches Some((neg, n, whole)) ==> {
            &&& neg == decimal_negative(s@)
            &&& n as nat == if digits_value(int_digits(s@)) < 100 {
                digits_value(int_digits(s@))
            } else {
                100
            }
            &&& whole == all_zeros(frac_digits(s@))
        },
{
    let len = s.unicode_len();
    let neg = len > 0 && s.get_char(0) == '-';
    let start: usize = if neg {
        1
    } else {
        0
    };
    let ghost u = unsigned_part(s@);
    assert(u =~= s@.skip(start as int));
    let mut i: usize = start;
    let mut v: u64 = 0;
    while i < len && s.get_char(i) != '.'
        invariant
            len == s@.len(),
            start <= i <= len,
            u =~= s@.skip(start as int),
            u == unsigned_part(s@),
            neg == decimal_negative(s@),
            forall|j: int| 0 <= j < i - start ==> u[j] != '.' && is_digit(#[trigger] u[j]),
            v as nat == if digits_value(u.take(i - start)) < 100 {
                digits_value(u.take(i - start))
            } else {
                100
            },
        decreases len - i,
    {
        let c = s.get_char(i);
        assert(u[i - start] == c);
        if !('0' <= c && c <= '9') {
            proof {
                lemma_dot_beyond(u, i - start);
                assert(int_digits(s@)[i - start] == u[i - start]);
            }
            return None;
        }
        let d = (c as u32 - '0' as u32) as u64;
        proof {
            lemma_digits_step(u, i - start);
        }
        v = if v >= 10 {
            100
        } else if v * 10 + d >= 100 {
            100
        } else {
            v * 10 + d
        };
        i = i + 1;
    }
    proof {
        lemma_dot_index(u, i - start);
        assert(int_digits(s@) =~= u.take(i - start));
    }
    if i == start {
        return None;
    }
    if i == len {
        assert(frac_digits(s@) =~= Seq::<char>::empty());
        return Some((neg, v, true));
    }
    let ghost f = u.skip(i - start + 1);
    assert(frac_digits(s@) =~= f);
    let mut k: usize = i + 1;
    let mut whole = true;
    while k < len
        invariant
            len == s@.len(),
            start < i + 1 <= k <= len,
            f =~= s@.skip(i + 1),
            frac_digits(s@) == f,
            has_point(s@),
            int_digits(s@).len() > 0,
            all_digits(int_digits(s@)),
            neg == decimal_negative(s@),
            v as nat == if digits_value(int_digits(s@)) < 100 {
                digits_value(int_digits(s@))
            } else {
                100
            },
            all_digits(f.take(k - i - 1)),
            whole == all_zeros(f.take(k - i - 1)),
        decreases len - k,
    {
        let c = s.get_char(k);
        assert(f[k - i - 1] == c);
        if !('0' <= c && c <= '9') {
            assert(!is_digit(f[k - i - 1]));
            return None;
        }
        assert(f.take(k - i) =~= f.take(k - i - 1).push(c));
        if c != '0' {
            whole = false;
            assert(f.take(k - i)[k - i - 1] == c);
        }
        assert(whole == all_zeros(f.take(k - i)));
        k = k + 1;
    }
    assert(f.take(len - i - 1) =~= f);
    assert(has_point(s@));
    if k == i + 1 {
        assert(f.len() == 0);
        return None;
    }
    Some((neg, v, whole))
}

/// Whether the value of the decimal text `s` lies in `[lo, hi]`.
pub fn decimal_in_range(s: &str, lo: u64, hi: u64) -> (r: bool)
    requires
        lo <= hi < 100,
    ensures
        r == decimal_within(s@, lo as nat, hi as nat),
{
    match decimal_parts(s) {
        None => false,
        Some((neg, n, whole)) => {
            if neg {
                lo == 0 && n == 0 && whole
            } else {
                lo <= n && (n < hi || (n == hi && whole))
            }
        },
    }
}

/// Whether the value of the text `s` is zero or below.
pub fn decimal_not_positive(s: &str) -> (r: bool)
    ensures
        r == decimal_at_most_zero(s@),
{
    proof {
        reveal_strlit("-inf");
    }
    let minus_inf = s.unicode_len() == 4 && s.get_char(0) == '-' && s.get_char(1) == 'i'
        && s.get_char(2) == 'n' && s.get_char(3) == 'f';
    assert(minus_inf ==> s@ =~= "-inf"@);
    match decimal_parts(s) {
        None => minus_inf,
        Some((neg, n, whole)) => neg || (n == 0 && whole) || minus_inf,
    }
}

} // verus!
