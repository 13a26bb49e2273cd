use vstd::prelude::*;
use crate::text::str_precedes;

verus! {

/// Whether a character is a digit.
pub open spec fn is_digit(c: char) -> bool {
    '0' <= c && c <= '9'
}

/// The digits of a text, in the order in which they stand there.
pub open spec fn digits_of(s: Seq<char>) -> Seq<char>
    decreases s.len(),
{
    if s.len() == 0 {
        Seq::empty()
    } else if is_digit(s.last()) {
        digits_of(s.drop_last()).push(s.last())
    } else {
        digits_of(s.drop_last())
    }
}

/// The number of zeros that a text begins with.
pub open spec fn leading_zeros(s: Seq<char>) -> int
    decreases s.len(),
{
    if s.len() > 0 && s[0] == '0' {
        1 + leading_zeros(s.drop_first())
    } else {
        0
    }
}

/// A text without the zeros that it begins with.
pub open spec fn trimmed(s: Seq<char>) -> Seq<char> {
    s.skip(leading_zeros(s))
}

/// Whether the number that the digits `p` write is below the number that the
/// digits `q` write: without its leading zeros `p` is shorter, or it is as
/// long and stands before `q` in alphabetical order.
pub open spec fn counts_before(p: Seq<char>, q: Seq<char>) -> bool {
    trimmed(p).len() < trimmed(q).len() || (trimmed(p).len() == trimmed(q).len()
        && crate::alias::precedes(trimmed(p), trimmed(q), 0))
}

/// Whether the digits `p` and the digits `q` write the same number: they are
/// the same but for leading zeros.
pub open spec fn counts_same(p: Seq<char>, q: Seq<char>) -> bool {
    trimmed(p) == trimmed(q)
}

/// No number is below itself.
pub proof fn lemma_counts_before_differs(p: Seq<char>)
    ensures
        !counts_before(p, p),
{
    crate::alias::lemma_precedes_differs(trimmed(p), 0);
}

/// A number below another is below every number that the other is below.
pub proof fn lemma_counts_before_transitive(p: Seq<char>, q: Seq<char>, r: Seq<char>)
    requires
        counts_before(p, q),
        counts_before(q, r),
    ensures
        counts_before(p, r),
{
    if trimmed(p).len() == trimmed(q).len() && trimmed(q).len() == trimmed(r).len() {
        crate::alias::lemma_precedes_transitive(trimmed(p), trimmed(q), trimmed(r), 0);
    }
}

/// Takes the leading zeros off a text.
pub fn trim_zeros(s: &str) -> (r: &str)
    ensures
        r@ == trimmed(s@),
{
    let n = s.unicode_len();
    let mut i: usize = 0;
    assert(s@.skip(0) =~= s@);
    while i < n && s.get_char(i) == '0'
        invariant
            i <= n,
            n == s@.len(),
            leading_zeros(s@) == i + leading_zeros(s@.skip(i as int)),
        decreases n - i,
    {
        assert(s@.skip(i as int)[0] == s@[i as int]);
        assert(s@.skip(i as int).drop_first() =~= s@.skip(i + 1));
        i += 1;
    }
    assert(leading_zeros(s@.skip(i as int)) == 0) by {
        if i < n {
            assert(s@.skip(i as int)[0] == s@[i as int]);
        }
    }
    let r = s.substring_char(i, n);
    assert(r@ =~= s@.skip(i as int));
    r
}

/// Tells whether the number that the digits `p` write is below the number
/// that the digits `q` write.
pub fn is_counted_before(p: &str, q: &str) -> (r: bool)
    ensures
        r == counts_before(p@, q@),
{
    let a = trim_zeros(p);
    let b = trim_zeros(q);
    let m = a.unicode_len();
    let n = b.unicode_len();
    m < n || (m == n && str_precedes(a, b))
}

/// Whether a text is made of digits only.
pub open spec fn all_digits(s: Seq<char>) -> bool {
    forall|i: int| 0 <= i < s.len() ==> is_digit(#[trigger] s[i])
}

/// The amount that a digit stands for.
pub open spec fn digit_value(c: char) -> int {
    (c as u32) as int - 48
}

/// The number that digits write, in decimal. No digit at all writes zero.
pub open spec fn number(s: Seq<char>) -> int
    decreases s.len(),
{
    if s.len() == 0 {
        0
    } else {
        10 * number(s.drop_last()) + digit_value(s.last())
    }
}

/// Ten to the power of `n`.
pub open spec fn pow10(n: nat) -> int
    decreases n,
{
    if n == 0 {
        1
    } else {
        10 * pow10((n - 1) as nat)
    }
}

proof fn lemma_pow10_grows(a: nat, b: nat)
    requires
        a <= b,
    ensures
        1 <= pow10(a) <= pow10(b),
    decreases b,
{
    if a < b {
        lemma_pow10_grows(a, (b - 1) as nat);
    } else if a > 0 {
        lemma_pow10_grows((a - 1) as nat, (a - 1) as nat);
    }
}

proof fn lemma_zero_first(s: Seq<char>)
    requires
        s.len() > 0,
        s[0] == '0',
    ensures
        number(s) == number(s.drop_first()),
    decreases s.len(),
{
    if s.len() == 1 {
        assert(number(s.drop_last()) == 0);
        assert(number(s.drop_first()) == 0);
    } else {
        let t = s.drop_last();
        let u = s.drop_first();
        lemma_zero_first(t);
        assert(t.drop_first() =~= u.drop_last());
        assert(u.last() == s.last());
        assert(number(u) == 10 * number(u.drop_last()) + digit_value(u.last()));
    }
}

proof fn lemma_trimmed(s: Seq<char>)
    ensures
        0 <= leading_zeros(s) <= s.len(),
        number(trimmed(s)) == number(s),
        trimmed(s).len() == 0 || trimmed(s)[0] != '0',
        all_digits(s) ==> all_digits(trimmed(s)),
    decreases s.len(),
{
    if s.len() > 0 && s[0] == '0' {
        let t = s.drop_first();
        lemma_zero_first(s);
        lemma_trimmed(t);
        assert(trimmed(s) =~= trimmed(t));
        if all_digits(s) {
            assert forall|i: int| 0 <= i < t.len() implies is_digit(#[trigger] t[i]) by {
                assert(t[i] == s[i + 1]);
            }
        }
    } else {
        assert(trimmed(s) =~= s);
    }
}

proof fn lemma_number_bounds(s: Seq<char>)
    requires
        all_digits(s),
    ensures
        0 <= number(s) < pow10(s.len()),
        s.len() > 0 && s[0] != '0' ==> number(s) >= pow10((s.len() - 1) as nat),
    decreases s.len(),
{
    if s.len() > 0 {
        let t = s.drop_last();
        assert forall|i: int| 0 <= i < t.len() implies is_digit(#[trigger] t[i]) by {
            assert(t[i] == s[i]);
        }
        assert(is_digit(s[s.len() - 1]));
        lemma_number_bounds(t);
        if s.len() >= 2 {
            assert(t[0] == s[0]);
        }
    }
}

proof fn lemma_take_next(a: Seq<char>, k: int)
    requires
        0 <= k < a.len(),
    ensures
        number(a.take(k + 1)) == 10 * number(a.take(k)) + digit_value(a[k]),
{
    assert(a.take(k + 1).drop_last() =~= a.take(k));
    assert(a.take(k + 1).last() == a[k]);
}

proof fn lemma_less_goes_on(a: Seq<char>, b: Seq<char>, j: int)
    requires
        all_digits(a),
        all_digits(b),
        a.len() == b.len(),
        0 <= j <= a.len(),
        number(a.take(j)) < number(b.take(j)),
    ensures
        number(a) < number(b),
    decreases a.len() - j,
{
    if j < a.len() {
        lemma_take_next(a, j);
        lemma_take_next(b, j);
        assert(is_digit(a[j]) && is_digit(b[j]));
        lemma_less_goes_on(a, b, j + 1);
    } else {
        assert(a.take(j) =~= a);
        assert(b.take(j) =~= b);
    }
}

proof fn lemma_precedes_is_less(a: Seq<char>, b: Seq<char>, k: int)
    requires
        all_digits(a),
        all_digits(b),
        a.len() == b.len(),
        0 <= k <= a.len(),
        a.take(k) == b.take(k),
        crate::alias::precedes(a, b, k),
    ensures
        number(a) < number(b),
    decreases a.len() - k,
{
    lemma_take_next(a, k);
    lemma_take_next(b, k);
    assert(is_digit(a[k]) && is_digit(b[k]));
    if a[k] != b[k] {
        lemma_less_goes_on(a, b, k + 1);
    } else {
        assert(a.take(k + 1) =~= a.take(k).push(a[k]));
        assert(b.take(k + 1) =~= b.take(k).push(b[k]));
        lemma_precedes_is_less(a, b, k + 1);
    }
}

proof fn lemma_neither_precedes(a: Seq<char>, b: Seq<char>, k: int)
    requires
        a.len() == b.len(),
        0 <= k <= a.len(),
        a.take(k) == b.take(k),
        !crate::alias::precedes(a, b, k),
        !crate::alias::precedes(b, a, k),
    ensures
        a == b,
    decreases a.len() - k,
{
    if k < a.len() {
        assert(a[k] == b[k]) by {
            vstd::utf8::char_u32_cast(a[k], a[k] as u32);
            vstd::utf8::char_u32_cast(b[k], b[k] as u32);
        }
        assert(a.take(k + 1) =~= a.take(k).push(a[k]));
        assert(b.take(k + 1) =~= b.take(k).push(b[k]));
        lemma_neither_precedes(a, b, k + 1);
    } else {
        assert(a.take(k) =~= a);
        assert(b.take(k) =~= b);
    }
}

proof fn lemma_before_is_less(p: Seq<char>, q: Seq<char>)
    requires
        all_digits(p),
        all_digits(q),
        counts_before(p, q),
    ensures
        number(p) < number(q),
{
    let a = trimmed(p);
    let b = trimmed(q);
    lemma_trimmed(p);
    lemma_trimmed(q);
    lemma_number_bounds(a);
    lemma_number_bounds(b);
    if a.len() < b.len() {
        lemma_pow10_grows(a.len(), (b.len() - 1) as nat);
    } else {
        assert(a.take(0) =~= b.take(0));
        lemma_precedes_is_less(a, b, 0);
    }
}

/// The order of digits is the order of the numbers they write: one text of
/// digits counts before another exactly where it writes the lower number,
/// and the two count the same exactly where they write the same number.
pub proof fn lemma_counts_by_value(p: Seq<char>, q: Seq<char>)
    requires
        all_digits(p),
        all_digits(q),
    ensures
        counts_before(p, q) <==> number(p) < number(q),
        counts_same(p, q) <==> number(p) == number(q),
{
    let a = trimmed(p);
    let b = trimmed(q);
    lemma_trimmed(p);
    lemma_trimmed(q);
    if counts_before(p, q) {
        lemma_before_is_less(p, q);
    } else if counts_before(q, p) {
        lemma_before_is_less(q, p);
    } else {
        assert(a.take(0) =~= b.take(0));
        lemma_neither_precedes(a, b, 0);
    }
}

/// The digits of a text are digits.
pub proof fn lemma_digits_of(s: Seq<char>)
    ensures
        all_digits(digits_of(s)),
    decreases s.len(),
{
    if s.len() > 0 {
        lemma_digits_of(s.drop_last());
    }
}

} // verus!
